//! What decoding gives back of an encoding.
//!
//! The encoder walks the code points in increasing order and, within one,
//! the positions in increasing order; the decoder rebuilds the label one
//! inserted character at a time. Between the two stands [`chosen`]: the
//! characters of the label that have been handled so far, in label order.
use vstd::prelude::*;
use vstd::arithmetic::div_mod::lemma_fundamental_div_mod_converse;
use crate::puny::{
    all_basic, basic_part, decode_from, decode_spec, digit_char, digit_value, encode_pass,
    encode_rounds, encode_spec, encoded_basic, encoded_deltas, encoded_head, is_basic,
    is_digit_char, last_delimiter_before, lemma_last_delimiter, lemma_basic_part_count, lemma_basic_part_push,
    lemma_digit_roundtrip, lemma_min_code_point, min_code_point, read_vli, threshold, vli_digits,
    adapt_spec, count_below, is_scalar_value, DELIMITER,
};

verus! {

/// Is the character `c`, at position `k`, handled once the encoder stands
/// at code point `m` and position `j`? All smaller code points are, and
/// `m` itself before `j`.
pub open spec fn handled(c: char, k: int, m: int, j: int) -> bool {
    (c as u32) < m || ((c as u32) == m && k < j)
}

/// The handled characters of `s`, in order.
pub open spec fn chosen(s: Seq<char>, m: int, j: int) -> Seq<char>
    decreases s.len(),
{
    if s.len() == 0 {
        Seq::empty()
    } else {
        let t = chosen(s.drop_last(), m, j);
        if handled(s.last(), s.len() - 1, m, j) {
            t.push(s.last())
        } else {
            t
        }
    }
}

/// Two ways of handling that agree on every position choose the same.
proof fn lemma_chosen_same(s: Seq<char>, m1: int, j1: int, m2: int, j2: int)
    requires
        forall|k: int|
            0 <= k < s.len() ==> handled(s[k], k, m1, j1) == handled(#[trigger] s[k], k, m2, j2),
    ensures
        chosen(s, m1, j1) == chosen(s, m2, j2),
    decreases s.len(),
{
    if s.len() > 0 {
        let init = s.drop_last();
        assert forall|k: int|
            0 <= k < init.len() implies handled(init[k], k, m1, j1) == handled(
            #[trigger] init[k],
            k,
            m2,
            j2,
        ) by {
            assert(init[k] == s[k]);
        }
        lemma_chosen_same(init, m1, j1, m2, j2);
        assert(s.last() == s[s.len() - 1]);
    }
}

/// What is chosen is no longer than the label, and as long only when it is
/// the whole label.
proof fn lemma_chosen_len(s: Seq<char>, m: int, j: int)
    ensures
        chosen(s, m, j).len() <= s.len(),
        chosen(s, m, j).len() == s.len() ==> chosen(s, m, j) == s,
    decreases s.len(),
{
    if s.len() > 0 {
        lemma_chosen_len(s.drop_last(), m, j);
        if chosen(s, m, j).len() == s.len() {
            assert(s.drop_last().push(s.last()) =~= s);
        }
    }
}

/// What is chosen of a prefix is a prefix of what is chosen.
proof fn lemma_chosen_prefix(s: Seq<char>, a: int, m: int, j: int)
    requires
        0 <= a <= s.len(),
    ensures
        chosen(s.take(a), m, j).len() <= chosen(s, m, j).len(),
        chosen(s, m, j).take(chosen(s.take(a), m, j).len() as int) == chosen(s.take(a), m, j),
    decreases s.len() - a,
{
    if a == s.len() {
        assert(s.take(a) =~= s);
        assert(chosen(s, m, j).take(chosen(s, m, j).len() as int) =~= chosen(s, m, j));
    } else {
        lemma_chosen_prefix(s, a + 1, m, j);
        let t = s.take(a + 1);
        assert(t.drop_last() =~= s.take(a));
        let x = chosen(s.take(a), m, j);
        let y = chosen(t, m, j);
        let z = chosen(s, m, j);
        assert(z.take(x.len() as int) =~= y.take(x.len() as int));
        assert(y.take(x.len() as int) =~= x);
    }
}

/// Moving on past a position whose code point is not the current one
/// changes nothing that is chosen; what is chosen before the position grows
/// by one when the character there is handled at all.
proof fn lemma_chosen_step(s: Seq<char>, j: int, m: int)
    requires
        0 <= j < s.len(),
    ensures
        (s[j] as u32) != m ==> chosen(s, m, j + 1) == chosen(s, m, j),
        chosen(s.take(j + 1), m, j + 1).len() == chosen(s.take(j), m, j).len() + if (s[j] as u32)
            <= m {
            1int
        } else {
            0int
        },
{
    if (s[j] as u32) != m {
        lemma_chosen_same(s, m, j + 1, m, j);
    }
    let t = s.take(j + 1);
    assert(t.drop_last() =~= s.take(j));
    assert(t.last() == s[j]);
    let u = s.take(j);
    assert forall|k: int| 0 <= k < u.len() implies handled(u[k], k, m, j + 1) == handled(
        #[trigger] u[k],
        k,
        m,
        j,
    ) by {}
    lemma_chosen_same(u, m, j + 1, m, j);
}

/// Handling the character at `j`, whose code point is the current one,
/// inserts it at the count of what is chosen before it.
proof fn lemma_chosen_insert(s: Seq<char>, j: int, m: int)
    requires
        0 <= j < s.len(),
        (s[j] as u32) == m,
    ensures
        chosen(s, m, j + 1) == chosen(s, m, j).insert(chosen(s.take(j), m, j).len() as int, s[j]),
    decreases s.len(),
{
    let init = s.drop_last();
    if j == s.len() - 1 {
        assert(init =~= s.take(j));
        assert forall|k: int| 0 <= k < init.len() implies handled(init[k], k, m, j + 1) == handled(
            #[trigger] init[k],
            k,
            m,
            j,
        ) by {}
        lemma_chosen_same(init, m, j + 1, m, j);
        assert(s.last() == s[j]);
        let x = chosen(init, m, j);
        assert(x.insert(x.len() as int, s[j]) =~= x.push(s[j]));
    } else {
        assert(init[j] == s[j]);
        lemma_chosen_insert(init, j, m);
        assert(init.take(j) =~= s.take(j));
        lemma_chosen_prefix(init, j, m, j);
        let x = chosen(init, m, j);
        let pos = chosen(s.take(j), m, j).len() as int;
        assert(handled(s.last(), s.len() - 1, m, j + 1) == handled(s.last(), s.len() - 1, m, j));
        assert(x.insert(pos, s[j]).push(s.last()) =~= x.push(s.last()).insert(pos, s[j]));
    }
}

/// Before the first non-basic code point, the chosen characters are the
/// basic ones.
proof fn lemma_chosen_basic(s: Seq<char>)
    ensures
        chosen(s, 128, 0) == basic_part(s),
    decreases s.len(),
{
    if s.len() == 0 {
        reveal(Seq::filter);
    } else {
        lemma_chosen_basic(s.drop_last());
        lemma_basic_part_push(s.drop_last(), s.last());
        assert(s.drop_last().push(s.last()) =~= s);
    }
}

/// Every character is a digit character.
pub open spec fn all_digits(s: Seq<char>) -> bool {
    forall|k: int| 0 <= k < s.len() ==> is_digit_char(#[trigger] s[k])
}

/// The digits of an integer are digit characters, at least one.
proof fn lemma_vli_digits(q: int, k: int, bias: int)
    requires
        q >= 0,
    ensures
        all_digits(vli_digits(q, k, bias)),
        vli_digits(q, k, bias).len() >= 1,
    decreases q,
{
    let t = threshold(k, bias);
    if q < t {
        lemma_digit_roundtrip(q as u32);
    } else {
        assert((q - t) / (36 - t) < q && (q - t) / (36 - t) >= 0) by (nonlinear_arith)
            requires
                q >= t,
                1 <= t <= 26,
        ;
        assert(t + (q - t) % (36 - t) < 36) by (nonlinear_arith)
            requires
                q >= t,
                1 <= t <= 26,
        ;
        lemma_digit_roundtrip((t + (q - t) % (36 - t)) as u32);
        lemma_vli_digits((q - t) / (36 - t), k + 36, bias);
    }
}

/// Reading the digits of `q` back, at weight `w`, adds `q * w`, unless a
/// bound of the reader is hit first.
proof fn lemma_vli_read(d: Seq<char>, p: int, q: int, i: int, w: int, k: int, bias: int)
    requires
        q >= 0,
        w >= 1,
        i >= 0,
        0 <= p,
        p + vli_digits(q, k, bias).len() <= d.len(),
        d.subrange(p, p + vli_digits(q, k, bias).len()) == vli_digits(q, k, bias),
    ensures
        read_vli(d, p, i, w, k, bias) is None || read_vli(d, p, i, w, k, bias) == Some(
            (i + q * w, p + vli_digits(q, k, bias).len()),
        ),
    decreases q,
{
    let v = vli_digits(q, k, bias);
    let t = threshold(k, bias);
    assert(d[p] == v[0]);
    if q < t {
        lemma_digit_roundtrip(q as u32);
    } else {
        let dv = t + (q - t) % (36 - t);
        let q2 = (q - t) / (36 - t);
        assert(q2 < q && q2 >= 0) by (nonlinear_arith)
            requires
                q >= t,
                1 <= t <= 26,
                q2 == (q - t) / (36 - t),
        ;
        assert(t <= dv < 36) by (nonlinear_arith)
            requires
                q >= t,
                1 <= t <= 26,
                dv == t + (q - t) % (36 - t),
        ;
        assert(dv + q2 * (36 - t) == q) by (nonlinear_arith)
            requires
                q >= t,
                1 <= t <= 26,
                dv == t + (q - t) % (36 - t),
                q2 == (q - t) / (36 - t),
        ;
        lemma_digit_roundtrip(dv as u32);
        let rest = vli_digits(q2, k + 36, bias);
        assert(v == seq![digit_char(dv as u32)] + rest);
        assert(d.subrange(p + 1, p + 1 + rest.len()) =~= rest) by {
            assert forall|x: int| 0 <= x < rest.len() implies d.subrange(p + 1, p + 1 + rest.len())[x]
                == rest[x] by {
                assert(d.subrange(p, p + v.len())[x + 1] == v[x + 1]);
            }
        }
        if digit_value(d[p]) as int <= (u32::MAX - i) / w {
            assert(dv * w >= 0) by (nonlinear_arith)
                requires
                    dv >= 0,
                    w >= 1,
            ;
            assert((w * (36 - t)) >= 1) by (nonlinear_arith)
                requires
                    w >= 1,
                    1 <= t <= 26,
            ;
            lemma_vli_read(d, p + 1, q2, i + dv * w, w * (36 - t), k + 36, bias);
            assert(i + dv * w + q2 * (w * (36 - t)) == i + q * w) by (nonlinear_arith)
                requires
                    dv + q2 * (36 - t) == q,
            ;
        }
    }
}

/// When every character is handled, all of the label is chosen.
proof fn lemma_chosen_all(s: Seq<char>, m: int, j: int)
    requires
        forall|k: int| 0 <= k < s.len() ==> handled(#[trigger] s[k], k, m, j),
    ensures
        chosen(s, m, j) == s,
    decreases s.len(),
{
    if s.len() > 0 {
        let init = s.drop_last();
        assert forall|k: int| 0 <= k < init.len() implies handled(#[trigger] init[k], k, m, j) by {
            assert(init[k] == s[k]);
        }
        lemma_chosen_all(init, m, j);
        assert(s.last() == s[s.len() - 1]);
        assert(init.push(s.last()) =~= s);
    }
}

/// What one pass emits is made of digit characters.
proof fn lemma_pass_digits(s: Seq<char>, j: int, m: int, delta: int, bias: int, h: int, b: int)
    requires
        delta >= 0,
    ensures
        all_digits(encode_pass(s, j, m, delta, bias, h, b).0),
        encode_pass(s, j, m, delta, bias, h, b).2 >= 0,
        encode_pass(s, j, m, delta, bias, h, b).4 >= h,
    decreases s.len() - j,
{
    if 0 <= j < s.len() {
        let c = (s[j] as u32) as int;
        if c < m {
            if delta < u32::MAX {
                lemma_pass_digits(s, j + 1, m, delta + 1, bias, h, b);
            }
        } else if c == m {
            let bias2 = adapt_spec(delta as nat, (h + 1) as nat, h == b) as int;
            lemma_pass_digits(s, j + 1, m, 0, bias2, h + 1, b);
            lemma_vli_digits(delta, 36, bias);
            let v = vli_digits(delta, 36, bias);
            let r = encode_pass(s, j + 1, m, 0, bias2, h + 1, b).0;
            assert forall|k: int| 0 <= k < (v + r).len() implies is_digit_char(#[trigger] (v + r)[k]) by {
                if k >= v.len() {
                    assert((v + r)[k] == r[k - v.len()]);
                }
            }
        } else {
            lemma_pass_digits(s, j + 1, m, delta, bias, h, b);
        }
    }
}

/// What the rounds emit is made of digit characters.
proof fn lemma_rounds_digits(s: Seq<char>, n: int, delta: int, bias: int, h: int, b: int)
    requires
        delta >= 0,
        h >= 0,
    ensures
        all_digits(encode_rounds(s, n, delta, bias, h, b).0),
    decreases u32::MAX + 2 - n,
{
    if !(h >= s.len() || n > u32::MAX || n < 0) {
        let m = min_code_point(s, n);
        lemma_min_code_point(s, n);
        if !(m - n > (u32::MAX - delta) / (h + 1)) {
            let pass = encode_pass(s, 0, m, delta + (m - n) * (h + 1), bias, h, b);
            assert((m - n) * (h + 1) >= 0) by (nonlinear_arith)
                requires
                    m >= n,
                    h >= 0,
            ;
            lemma_pass_digits(s, 0, m, delta + (m - n) * (h + 1), bias, h, b);
            if pass.1 && pass.2 < u32::MAX {
                lemma_rounds_digits(s, m + 1, pass.2 + 1, pass.3, pass.4, b);
                let r = encode_rounds(s, m + 1, pass.2 + 1, pass.3, pass.4, b).0;
                assert forall|k: int| 0 <= k < (pass.0 + r).len() implies is_digit_char(
                    #[trigger] (pass.0 + r)[k],
                ) by {
                    if k >= pass.0.len() {
                        assert((pass.0 + r)[k] == r[k - pass.0.len()]);
                    }
                }
            }
        }
    }
}

/// The largest value the decoder is sure to read back: its digits never
/// hit the reader's bounds, since thirty-six times it still fits in `u32`.
pub open spec fn safe_value() -> int {
    119_304_640
}

/// The largest code point of `s` (zero when it is empty).
pub open spec fn max_code(s: Seq<char>) -> int
    decreases s.len(),
{
    if s.len() == 0 {
        0
    } else {
        let r = max_code(s.drop_last());
        let v = (s.last() as u32) as int;
        if v > r {
            v
        } else {
            r
        }
    }
}

/// Is every integer an encoding of `s` can carry small enough for the
/// decoder? Each one the decoder reads (its position plus the delta) is
/// less than one more than the gap between two successive code points it
/// handles, the first counted from `128`, times one more than the label's
/// length; so this asks that the largest code point beyond `127`, times the
/// length plus one, stays within [`safe_value`].
pub open spec fn carries_small(s: Seq<char>) -> bool {
    (max_code(s) - 127) * (s.len() + 1) <= safe_value()
}

/// The largest code point bounds every code point, and is a Unicode scalar
/// value at most.
proof fn lemma_max_code(s: Seq<char>)
    ensures
        forall|j: int| 0 <= j < s.len() ==> (#[trigger] s[j] as u32) <= max_code(s),
        0 <= max_code(s) <= 0x10FFFF,
    decreases s.len(),
{
    if s.len() > 0 {
        lemma_max_code(s.drop_last());
        vstd::utf8::char_is_scalar(s.last());
        assert forall|j: int| 0 <= j < s.len() implies (#[trigger] s[j] as u32) <= max_code(s) by {
            if j < s.len() - 1 {
                assert(s[j] == s.drop_last()[j]);
            }
        }
    }
}

/// Reading the digits of `q` back, at weight `w`, adds `q * w`, whenever
/// the value read stays within [`safe_value`].
proof fn lemma_vli_read_some(d: Seq<char>, p: int, q: int, i: int, w: int, k: int, bias: int)
    requires
        q >= 0,
        w >= 1,
        i >= 0,
        i + q * w <= safe_value(),
        0 <= p,
        p + vli_digits(q, k, bias).len() <= d.len(),
        d.subrange(p, p + vli_digits(q, k, bias).len()) == vli_digits(q, k, bias),
    ensures
        read_vli(d, p, i, w, k, bias) == Some((i + q * w, p + vli_digits(q, k, bias).len())),
    decreases q,
{
    let v = vli_digits(q, k, bias);
    let t = threshold(k, bias);
    assert(d[p] == v[0]);
    if q < t {
        lemma_digit_roundtrip(q as u32);
        assert(q <= (u32::MAX - i) / w) by (nonlinear_arith)
            requires
                q >= 0,
                w >= 1,
                i >= 0,
                i + q * w <= 119_304_640,
        ;
    } else {
        let dv = t + (q - t) % (36 - t);
        let q2 = (q - t) / (36 - t);
        assert(q2 < q && q2 >= 0) by (nonlinear_arith)
            requires
                q >= t,
                1 <= t <= 26,
                q2 == (q - t) / (36 - t),
        ;
        assert(t <= dv < 36) by (nonlinear_arith)
            requires
                q >= t,
                1 <= t <= 26,
                dv == t + (q - t) % (36 - t),
        ;
        assert(dv + q2 * (36 - t) == q) by (nonlinear_arith)
            requires
                q >= t,
                1 <= t <= 26,
                dv == t + (q - t) % (36 - t),
                q2 == (q - t) / (36 - t),
        ;
        lemma_digit_roundtrip(dv as u32);
        let rest = vli_digits(q2, k + 36, bias);
        assert(v == seq![digit_char(dv as u32)] + rest);
        assert(d.subrange(p + 1, p + 1 + rest.len()) =~= rest) by {
            assert forall|x: int| 0 <= x < rest.len() implies d.subrange(p + 1, p + 1 + rest.len())[x]
                == rest[x] by {
                assert(d.subrange(p, p + v.len())[x + 1] == v[x + 1]);
            }
        }
        assert(dv <= (u32::MAX - i) / w && 36 <= (u32::MAX - t) / w && dv * w >= 0 && i + dv * w
            + q2 * (w * (36 - t)) == i + q * w && w * (36 - t) >= 1) by (nonlinear_arith)
            requires
                dv + q2 * (36 - t) == q,
                0 <= dv <= q,
                q >= 1,
                q2 >= 0,
                w >= 1,
                i >= 0,
                1 <= t <= 26,
                i + q * w <= 119_304_640,
        ;
        lemma_vli_read_some(d, p + 1, q2, i + dv * w, w * (36 - t), k + 36, bias);
    }
}

/// Dropping a known front off what follows a position.
proof fn lemma_skip_front(d: Seq<char>, p: int, v: Seq<char>, rest: Seq<char>)
    requires
        0 <= p <= d.len(),
        d.skip(p) == v + rest,
    ensures
        p + v.len() <= d.len(),
        d.subrange(p, p + v.len()) == v,
        d.skip(p + v.len()) == rest,
{
    assert(d.skip(p).len() == v.len() + rest.len());
    assert forall|x: int| 0 <= x < v.len() implies d.subrange(p, p + v.len())[x] == v[x] by {
        assert(d.skip(p)[x] == (v + rest)[x]);
    }
    assert(d.subrange(p, p + v.len()) =~= v);
    assert forall|x: int| 0 <= x < rest.len() implies d.skip(p + v.len())[x] == rest[x] by {
        assert(d.skip(p)[x + v.len()] == (v + rest)[x + v.len()]);
        assert(d.skip(p)[x + v.len()] == d[p + v.len() + x]);
        assert(d.skip(p + v.len())[x] == d[p + v.len() + x]);
    }
    assert(d.skip(p + v.len()) =~= rest);
}

/// Decoding, from the state that matches the encoder in the middle of a
/// pass at code point `m` and position `j`, what the encoder emits from
/// there on gives the label back, unless a bound of the decoder is hit.
///
/// The decoder has rebuilt the chosen characters; its position `i` and code
/// point `n`, moved on by the pending `delta`, land on `m` and on the count
/// of chosen characters before `j`.
proof fn lemma_decode_pass(
    s: Seq<char>,
    j: int,
    m: int,
    delta: int,
    bias: int,
    h: int,
    b: int,
    d: Seq<char>,
    p: int,
    out: Seq<char>,
    n: int,
    i: int,
)
    requires
        0 <= j <= s.len(),
        128 <= m <= 0x10FFFF,
        encode_pass(s, j, m, delta, bias, h, b).1,
        encode_pass(s, j, m, delta, bias, h, b).2 < u32::MAX,
        encode_rounds(
            s,
            m + 1,
            encode_pass(s, j, m, delta, bias, h, b).2 + 1,
            encode_pass(s, j, m, delta, bias, h, b).3,
            encode_pass(s, j, m, delta, bias, h, b).4,
            b,
        ).1,
        0 <= p <= d.len(),
        d.skip(p) == encode_pass(s, j, m, delta, bias, h, b).0 + encode_rounds(
            s,
            m + 1,
            encode_pass(s, j, m, delta, bias, h, b).2 + 1,
            encode_pass(s, j, m, delta, bias, h, b).3,
            encode_pass(s, j, m, delta, bias, h, b).4,
            b,
        ).0,
        out == chosen(s, m, j),
        h == out.len(),
        h >= b,
        i >= 0,
        delta >= 0,
        i + delta == (m - n) * (h + 1) + chosen(s.take(j), m, j).len(),
        (i == 0) == (h == b),
        n >= 128,
    ensures
        decode_from(d, p, out, n, i, bias) is None || decode_from(d, p, out, n, i, bias) == Some(s),
        carries_small(s) ==> decode_from(d, p, out, n, i, bias) == Some(s),
    decreases u32::MAX + 2 - m, s.len() - j,
{
    if j == s.len() {
        assert(s.take(j) =~= s);
        assert forall|k: int| 0 <= k < s.len() implies handled(s[k], k, m, j) == handled(
            #[trigger] s[k],
            k,
            m + 1,
            0,
        ) by {}
        lemma_chosen_same(s, m, j, m + 1, 0);
        assert(i + delta + 1 == (m + 1 - n) * (h + 1)) by (nonlinear_arith)
            requires
                i + delta == (m - n) * (h + 1) + h,
        ;
        lemma_decode_rounds(s, m + 1, delta + 1, bias, h, b, d, p, out, n, i);
    } else {
        let c = (s[j] as u32) as int;
        lemma_chosen_step(s, j, m);
        if c < m {
            lemma_decode_pass(s, j + 1, m, delta + 1, bias, h, b, d, p, out, n, i);
        } else if c > m {
            lemma_decode_pass(s, j + 1, m, delta, bias, h, b, d, p, out, n, i);
        } else {
            let bias2 = adapt_spec(delta as nat, (h + 1) as nat, h == b) as int;
            let r1 = encode_pass(s, j + 1, m, 0, bias2, h + 1, b);
            let rest = encode_rounds(s, m + 1, r1.2 + 1, r1.3, r1.4, b);
            let v = vli_digits(delta, 36, bias);
            lemma_vli_digits(delta, 36, bias);
            assert(d.skip(p) == v + (r1.0 + rest.0));
            lemma_skip_front(d, p, v, r1.0 + rest.0);
            lemma_vli_read(d, p, delta, i, 1, 36, bias);
            let len = h + 1;
            let c0 = chosen(s.take(j), m, j).len() as int;
            lemma_chosen_prefix(s, j, m, j);
            let i2 = i + delta;
            assert(i2 == (m - n) * len + c0);
            if carries_small(s) {
                lemma_chosen_len(s, m, j);
                lemma_max_code(s);
                let mc = max_code(s);
                let sl = s.len() as int;
                assert(m <= mc);
                assert(m >= n) by (nonlinear_arith)
                    requires
                        i + delta == (m - n) * len + c0,
                        0 <= c0 < len,
                        i >= 0,
                        delta >= 0,
                ;
                assert((m - n + 1) * len <= (mc - 127) * (sl + 1)) by (nonlinear_arith)
                    requires
                        0 <= m - n + 1 <= mc - 127,
                        1 <= len <= sl + 1,
                ;
                assert(i + delta * 1 <= safe_value()) by (nonlinear_arith)
                    requires
                        i + delta == (m - n) * len + c0,
                        c0 < len,
                        (m - n + 1) * len <= (mc - 127) * (sl + 1),
                        (mc - 127) * (sl + 1) <= safe_value(),
                ;
                lemma_vli_read_some(d, p, delta, i, 1, 36, bias);
            }
            if read_vli(d, p, i, 1, 36, bias) is Some {
                lemma_fundamental_div_mod_converse(i2, len, m - n, c0);
                vstd::utf8::char_is_scalar(s[j]);
                vstd::utf8::char_u32_cast(s[j], s[j] as u32);
                assert(is_scalar_value(m));
                assert(((m as u32) as char) == s[j]);
                lemma_chosen_insert(s, j, m);
                assert(decode_from(d, p, out, n, i, bias) == decode_from(
                    d,
                    p + v.len(),
                    out.insert(c0, s[j]),
                    m,
                    c0 + 1,
                    bias2,
                ));
                lemma_decode_pass(
                    s,
                    j + 1,
                    m,
                    0,
                    bias2,
                    h + 1,
                    b,
                    d,
                    p + v.len(),
                    out.insert(c0, s[j]),
                    m,
                    c0 + 1,
                );
            }
        }
    }
}

/// Decoding, from the state that matches the encoder at the start of a
/// round at code point `nr`, what the rounds emit from there on gives the
/// label back, unless a bound of the decoder is hit.
proof fn lemma_decode_rounds(
    s: Seq<char>,
    nr: int,
    delta: int,
    bias: int,
    h: int,
    b: int,
    d: Seq<char>,
    p: int,
    out: Seq<char>,
    n: int,
    i: int,
)
    requires
        128 <= nr,
        encode_rounds(s, nr, delta, bias, h, b).1,
        0 <= p <= d.len(),
        d.skip(p) == encode_rounds(s, nr, delta, bias, h, b).0,
        out == chosen(s, nr, 0),
        h == out.len(),
        h >= b,
        i >= 0,
        delta >= 0,
        i + delta == (nr - n) * (h + 1),
        (i == 0) == (h == b),
        n >= 128,
    ensures
        decode_from(d, p, out, n, i, bias) is None || decode_from(d, p, out, n, i, bias) == Some(s),
        carries_small(s) ==> decode_from(d, p, out, n, i, bias) == Some(s),
    decreases u32::MAX + 2 - nr, s.len() + 1,
{
    lemma_chosen_len(s, nr, 0);
    if h >= s.len() {
        assert(d.skip(p).len() == 0);
    } else {
        if forall|k: int| 0 <= k < s.len() ==> handled(#[trigger] s[k], k, nr, 0) {
            lemma_chosen_all(s, nr, 0);
        }
        let w = choose|k: int| 0 <= k < s.len() && !handled(#[trigger] s[k], k, nr, 0);
        vstd::utf8::char_is_scalar(s[w]);
        assert(nr <= u32::MAX);
        let m = min_code_point(s, nr);
        lemma_min_code_point(s, nr);
        assert(m <= (s[w] as u32));
        let delta2 = delta + (m - nr) * (h + 1);
        assert((m - nr) * (h + 1) >= 0) by (nonlinear_arith)
            requires
                m >= nr,
                h >= 0,
        ;
        assert(i + delta2 == (m - n) * (h + 1)) by (nonlinear_arith)
            requires
                i + delta == (nr - n) * (h + 1),
                delta2 == delta + (m - nr) * (h + 1),
        ;
        assert forall|k: int| 0 <= k < s.len() implies handled(s[k], k, m, 0) == handled(
            #[trigger] s[k],
            k,
            nr,
            0,
        ) by {}
        lemma_chosen_same(s, m, 0, nr, 0);
        assert(s.take(0) =~= Seq::<char>::empty());
        lemma_decode_pass(s, 0, m, delta2, bias, h, b, d, p, out, n, i);
    }
}

/// Where an encoding's delimiter stands: after the basic characters when
/// there are any; nowhere otherwise.
proof fn lemma_encoding_parts(s: Seq<char>, tail: Seq<char>)
    requires
        all_digits(tail),
    ensures
        all_basic(encoded_head(s) + tail),
        encoded_basic(encoded_head(s) + tail) == basic_part(s),
        encoded_deltas(encoded_head(s) + tail) == tail,
{
    let bp = basic_part(s);
    let e = encoded_head(s) + tail;
    let head = encoded_head(s);
    assert forall|k: int| 0 <= k < bp.len() implies is_basic(#[trigger] bp[k]) by {
        let pred = |c: char| is_basic(c);
        assert(pred(bp[k]));
    }
    assert forall|k: int| 0 <= k < e.len() implies is_basic(#[trigger] e[k]) by {
        if k >= head.len() {
            assert(e[k] == tail[k - head.len()]);
            assert(is_digit_char(tail[k - head.len()]));
        } else if k < bp.len() {
            assert(e[k] == bp[k]);
        }
    }
    assert forall|k: int| head.len() <= k < e.len() implies e[k] != DELIMITER by {
        assert(e[k] == tail[k - head.len()]);
        assert(is_digit_char(tail[k - head.len()]));
    }
    lemma_last_delimiter(e, e.len() as int);
    if bp.len() > 0 {
        assert(e[bp.len() as int] == DELIMITER);
        let q = last_delimiter_before(e, e.len() as int);
        assert(q == Some(bp.len() as int));
        assert(e.subrange(0, bp.len() as int) =~= bp);
        assert(e.skip(bp.len() as int + 1) =~= tail);
    } else {
        assert(head =~= Seq::<char>::empty());
        assert(e =~= tail);
        assert(last_delimiter_before(e, e.len() as int) is None);
    }
}

/// Decoding what encoding produced gives the label back: whenever encoding
/// succeeds, decoding its output returns exactly the encoded label, never
/// another one; and it always does when the integers the encoding carries
/// stay small enough for the decoder (see [`carries_small`]), as they do for
/// every label of at most a hundred characters (every DNS label among them).
/// Beyond that the decoder's `u32` weight arithmetic can refuse an integer
/// the encoder wrote.
pub proof fn lemma_decode_encode(s: Seq<char>)
    requires
        encode_spec(s).1,
    ensures
        decode_spec(encode_spec(s).0) is None || decode_spec(encode_spec(s).0) == Some(s),
        carries_small(s) ==> decode_spec(encode_spec(s).0) == Some(s),
        s.len() <= 100 ==> decode_spec(encode_spec(s).0) == Some(s),
{
    lemma_max_code(s);
    let mc = max_code(s);
    let sl = s.len() as int;
    if sl <= 100 {
        assert((mc - 127) * (sl + 1) <= safe_value()) by (nonlinear_arith)
            requires
                mc <= 0x10FFFF,
                0 <= sl <= 100,
        ;
    }
    let b = count_below(s, 128) as int;
    lemma_basic_part_count(s);
    let total = encode_rounds(s, 128, 0, 72, b, b);
    lemma_rounds_digits(s, 128, 0, 72, b, b);
    lemma_encoding_parts(s, total.0);
    lemma_chosen_basic(s);
    assert(total.0.skip(0) =~= total.0);
    lemma_decode_rounds(s, 128, 0, 72, b, b, total.0, 0, basic_part(s), 128, 0);
}

} // verus!
