//! Punycode (Bootstring) decoding and encoding.
use vstd::prelude::*;
use vstd::utf8::char_is_scalar;
use vstd::arithmetic::div_mod::lemma_div_denominator;
use vstd::arithmetic::power::{lemma_pow0, lemma_pow_positive, pow};
use crate::outside::{char_from_u32, push_char};
use crate::text::{chars_to_string, str_chars, sub_chars};

verus! {

broadcast use vstd::string::group_string_axioms;

/// Bootstring parameter: base.
pub const BASE: u32 = 36;

/// Bootstring parameter: minimum threshold.
pub const T_MIN: u32 = 1;

/// Bootstring parameter: maximum threshold.
pub const T_MAX: u32 = 26;

/// Bootstring parameter: skew.
pub const SKEW: u32 = 38;

/// Bootstring parameter: damping on the first adaptation.
pub const DAMP: u32 = 700;

/// Bootstring parameter: initial bias.
pub const INITIAL_BIAS: u32 = 72;

/// Bootstring parameter: the first non-basic code point.
pub const INITIAL_N: u32 = 0x80;

/// Separator between the basic code points and the encoded deltas.
pub const DELIMITER: char = '-';

/// The value of a digit character, or `BASE` for a non-digit.
pub open spec fn digit_value(c: char) -> u32 {
    if '0' <= c && c <= '9' {
        ((c as u32) - 48 + 26) as u32
    } else if 'A' <= c && c <= 'Z' {
        ((c as u32) - 65) as u32
    } else if 'a' <= c && c <= 'z' {
        ((c as u32) - 97) as u32
    } else {
        36
    }
}

/// The (lowercase) digit character of a value below `BASE`.
pub open spec fn digit_char(v: u32) -> char {
    if v < 26 {
        ((v + 97) as u8) as char
    } else {
        ((v - 26 + 48) as u8) as char
    }
}

/// A digit character: `a-z` or `0-9`.
pub open spec fn is_digit_char(c: char) -> bool {
    ('a' <= c && c <= 'z') || ('0' <= c && c <= '9')
}

/// Is the character ASCII?
pub open spec fn is_basic(c: char) -> bool {
    (c as u32) < 128
}

/// The ASCII characters of `s`, in order.
pub open spec fn basic_part(s: Seq<char>) -> Seq<char> {
    s.filter(|c: char| is_basic(c))
}

/// Bias adaptation after `d` has been damped and scaled, with `k` so far.
pub open spec fn adapt_loop(d: nat, k: nat) -> nat
    decreases d,
{
    if d > 455 {
        adapt_loop(d / 35, k + 36)
    } else {
        k + (36 * d) / (d + 38)
    }
}

/// Punycode bias adaptation: damp `delta`, scale it by the number of
/// points, and count how many times it must be cut down below the limit.
pub open spec fn adapt_spec(delta: nat, num_points: nat, first_time: bool) -> nat {
    let d = delta / (if first_time {
        700nat
    } else {
        2nat
    });
    adapt_loop(d + d / num_points, 0)
}

/// How many division rounds [`adapt_loop`] takes.
spec fn adapt_rounds(d: nat) -> nat
    decreases d,
{
    if d > 455 {
        1 + adapt_rounds(d / 35)
    } else {
        0
    }
}

proof fn lemma_adapt_rounds(d: nat)
    requires
        d <= 0xFFFF_FFFF,
    ensures
        adapt_rounds(d) <= 5,
{
    let d1 = d / 35;
    let d2 = d1 / 35;
    let d3 = d2 / 35;
    let d4 = d3 / 35;
    let d5 = d4 / 35;
    assert(d5 <= 455);
    assert(adapt_rounds(d5) == 0);
    assert(adapt_rounds(d4) <= 1);
    assert(adapt_rounds(d3) <= 2);
    assert(adapt_rounds(d2) <= 3);
    assert(adapt_rounds(d1) <= 4);
}

proof fn lemma_adapt_loop_closed(d: nat, k: nat) -> (q: nat)
    ensures
        (d as int) / pow(35, q) <= 455,
        q > 0 ==> (d as int) / pow(35, (q - 1) as nat) > 455,
        adapt_loop(d, k) == k + 36 * q + (36 * ((d as int) / pow(35, q))) / ((d as int) / pow(35, q) + 38),
    decreases d,
{
    if d <= 455 {
        lemma_pow0(35);
        0
    } else {
        let q2 = lemma_adapt_loop_closed(d / 35, k + 36);
        let q = q2 + 1;
        reveal(pow);
        assert(pow(35, q) == 35 * pow(35, q2));
        lemma_pow_positive(35, q2);
        lemma_div_denominator(d as int, 35, pow(35, q2));
        assert((d / 35) as int / pow(35, q2) == (d as int) / pow(35, q));
        if q2 == 0 {
            lemma_pow0(35);
        } else {
            lemma_pow_positive(35, (q2 - 1) as nat);
            assert(pow(35, q2) == 35 * pow(35, (q2 - 1) as nat));
            lemma_div_denominator(d as int, 35, pow(35, (q2 - 1) as nat));
        }
        q
    }
}

/// # Bias Adaptation, in Closed Form.
///
/// After the delta is damped (divided by 700 the first time, by 2 after)
/// and grown by its share of the number of points, giving `d`, the new bias
/// is `36 q + 36 e / (e + 38)`: `q` is how many times `d` must be divided
/// by 35 to come down to at most 455 (it is above 455 one division
/// earlier), and `e` is what is left. The constants are Punycode's: base 36,
/// thresholds 1 and 26, skew 38, damping 700.
pub proof fn lemma_adapt_closed_form(delta: nat, num_points: nat, first_time: bool)
    requires
        num_points > 0,
    ensures
        ({
            let d0 = delta / (if first_time {
                700nat
            } else {
                2nat
            });
            let d = d0 + d0 / num_points;
            exists|q: nat|
                #![trigger pow(35, q)]
                (d as int) / pow(35, q) <= 455 && (q > 0 ==> (d as int) / pow(35, (q - 1) as nat) > 455) && adapt_spec(
                    delta,
                    num_points,
                    first_time,
                ) == 36 * q + (36 * ((d as int) / pow(35, q))) / ((d as int) / pow(35, q) + 38)
        }),
{
    let d0 = delta / (if first_time {
        700nat
    } else {
        2nat
    });
    let d = d0 + d0 / num_points;
    let q = lemma_adapt_loop_closed(d, 0);
    assert(pow(35, q) == pow(35, q));
}

/// # Adapt.
///
/// Punycode bias adaptation, as [`adapt_spec`] states it.
pub fn adapt(delta: u32, num_points: u32, first_time: bool) -> (r: u32)
    requires
        num_points > 0,
    ensures
        r == adapt_spec(delta as nat, num_points as nat, first_time),
        r <= 215,
{
    let ghost delta0 = delta;
    let mut delta = if first_time {
        delta / DAMP
    } else {
        delta / 2
    };
    assert(delta <= 0x7FFF_FFFF);
    assert(delta / num_points <= delta) by (nonlinear_arith)
        requires
            num_points > 0,
    ;
    delta = delta + delta / num_points;
    proof {
        lemma_adapt_rounds(delta as nat);
    }
    let mut k: u32 = 0;
    while delta > ((BASE - T_MIN) * T_MAX) / 2
        invariant
            adapt_loop(delta as nat, k as nat) == adapt_spec(
                delta0 as nat,
                num_points as nat,
                first_time,
            ),
            k + 36 * adapt_rounds(delta as nat) <= 180,
        decreases delta,
    {
        delta = delta / (BASE - T_MIN);
        k = k + BASE;
    }
    assert((36 * delta) / (delta + 38) <= 35) by (nonlinear_arith)
        requires
            delta <= 455,
    ;
    k + (((BASE - T_MIN + 1) * delta) / (delta + SKEW))
}

/// # Decode Digit.
///
/// The value of a Punycode digit, or `BASE` when `c` is not one.
pub fn decode_digit(c: char) -> (r: u32)
    ensures
        r == digit_value(c),
{
    let cp = c as u32;
    if '0' <= c && c <= '9' {
        cp - 48 + 26
    } else if 'A' <= c && c <= 'Z' {
        cp - 65
    } else if 'a' <= c && c <= 'z' {
        cp - 97
    } else {
        BASE
    }
}

/// # Value to Digit.
///
/// The lowercase Punycode digit of a value below `BASE`.
pub fn value_to_digit(value: u32) -> (r: char)
    requires
        value < 36,
    ensures
        r == digit_char(value),
        is_digit_char(r),
{
    if value < 26 {
        let b: u8 = value as u8 + 97;
        assert(b as char == ((value + 97) as u8) as char);
        b as char
    } else {
        let b: u8 = value as u8 - 26 + 48;
        b as char
    }
}

/// The position of the last delimiter before `end`, if any.
pub open spec fn last_delimiter_before(s: Seq<char>, end: int) -> Option<int>
    decreases end,
{
    if end <= 0 {
        None
    } else if s[end - 1] == DELIMITER {
        Some(end - 1)
    } else {
        last_delimiter_before(s, end - 1)
    }
}

/// The basic code points of an encoded label: everything before its last
/// delimiter, or nothing when there is none.
pub open spec fn encoded_basic(s: Seq<char>) -> Seq<char> {
    match last_delimiter_before(s, s.len() as int) {
        Some(p) => s.subrange(0, p),
        None => Seq::empty(),
    }
}

/// The encoded deltas of a label: everything after its last delimiter, or
/// all of it when there is none.
pub open spec fn encoded_deltas(s: Seq<char>) -> Seq<char> {
    match last_delimiter_before(s, s.len() as int) {
        Some(p) => s.skip(p + 1),
        None => s,
    }
}

/// Every character is ASCII.
pub open spec fn all_basic(s: Seq<char>) -> bool {
    forall|j: int| 0 <= j < s.len() ==> is_basic(#[trigger] s[j])
}

pub(crate) proof fn lemma_last_delimiter(s: Seq<char>, end: int)
    requires
        0 <= end <= s.len(),
    ensures
        match last_delimiter_before(s, end) {
            Some(p) => 0 <= p < end && s[p] == DELIMITER && forall|k: int| p < k < end ==> s[k]
                != DELIMITER,
            None => forall|k: int| 0 <= k < end ==> s[k] != DELIMITER,
        },
    decreases end,
{
    if end > 0 && s[end - 1] != DELIMITER {
        lemma_last_delimiter(s, end - 1);
    }
}

/// An all-ASCII sequence is its own basic part.
proof fn lemma_basic_part_all(s: Seq<char>)
    requires
        all_basic(s),
    ensures
        basic_part(s) == s,
    decreases s.len(),
{
    reveal(Seq::filter);
    if s.len() > 0 {
        assert(all_basic(s.drop_last()));
        lemma_basic_part_all(s.drop_last());
        assert(is_basic(s.last()));
        assert(s.drop_last().push(s.last()) =~= s);
    }
}

/// Inserting a non-ASCII character leaves the basic part alone.
proof fn lemma_basic_part_insert(s: Seq<char>, i: int, c: char)
    requires
        0 <= i <= s.len(),
        !is_basic(c),
    ensures
        basic_part(s.insert(i, c)) == basic_part(s),
{
    let pred = |c: char| is_basic(c);
    assert(s.insert(i, c) =~= s.take(i) + (seq![c] + s.skip(i)));
    assert(s =~= s.take(i) + s.skip(i));
    Seq::filter_distributes_over_add(s.take(i), seq![c] + s.skip(i), pred);
    Seq::filter_distributes_over_add(seq![c], s.skip(i), pred);
    Seq::filter_distributes_over_add(s.take(i), s.skip(i), pred);
    reveal(Seq::filter);
    assert(seq![c].drop_last() =~= Seq::<char>::empty());
    assert(seq![c].drop_last().filter(pred) =~= Seq::<char>::empty());
    assert(seq![c].filter(pred) =~= Seq::<char>::empty());
}

/// The Punycode threshold for the digit at `k` (a multiple of `BASE`):
/// `k - bias`, clamped to `T_MIN..=T_MAX`.
pub open spec fn threshold(k: int, bias: int) -> int {
    if k <= bias + 1 {
        1
    } else if k >= bias + 26 {
        26
    } else {
        k - bias
    }
}

/// Is `n` a Unicode scalar value (what `char::from_u32` accepts)?
pub open spec fn is_scalar_value(n: int) -> bool {
    (0 <= n <= 0xD7FF) || (0xE000 <= n <= 0x10FFFF)
}

/// Read one generalized variable-length integer from the deltas `d`, at
/// `p`, adding to `i` with the weight `w` at threshold position `k`: the new
/// `i` and the position after its last digit, or `None` for a missing or
/// invalid digit or a value beyond `u32`.
pub open spec fn read_vli(d: Seq<char>, p: int, i: int, w: int, k: int, bias: int) -> Option<(int, int)>
    decreases d.len() - p,
{
    if p < 0 || p >= d.len() || w < 1 {
        None
    } else {
        let digit = digit_value(d[p]) as int;
        if digit == 36 {
            None
        } else if digit > (u32::MAX - i) / w {
            None
        } else {
            let i2 = i + digit * w;
            let t = threshold(k, bias);
            if digit < t {
                Some((i2, p + 1))
            } else if 36 > (u32::MAX - t) / w {
                None
            } else {
                read_vli(d, p + 1, i2, w * (36 - t), k + 36, bias)
            }
        }
    }
}

/// A read integer ends after where it starts.
pub proof fn lemma_read_vli(d: Seq<char>, p: int, i: int, w: int, k: int, bias: int)
    ensures
        read_vli(d, p, i, w, k, bias) matches Some((i2, p2)) ==> p < p2 <= d.len() && i <= i2 <= u32::MAX,
    decreases d.len() - p,
{
    if 0 <= p < d.len() && w >= 1 {
        let digit = digit_value(d[p]) as int;
        if digit != 36 && digit <= (u32::MAX - i) / w {
            let t = threshold(k, bias);
            assert(digit * w <= u32::MAX - i) by (nonlinear_arith)
                requires
                    0 <= digit <= (u32::MAX - i) / w,
                    w >= 1,
            ;
            assert(digit * w >= 0) by (nonlinear_arith)
                requires
                    0 <= digit,
                    w >= 1,
            ;
            if digit >= t && 36 <= (u32::MAX - t) / w {
                lemma_read_vli(d, p + 1, i + digit * w, w * (36 - t), k + 36, bias);
            }
        }
    }
}

/// Decode the deltas `d` from `p` on into `out`, with the state `n`, `i`
/// and `bias` of the Punycode decoder: each integer moves `i` on; its wraps
/// around the output's length plus one move `n` on; `n` is inserted at `i`.
/// `None` on a bad integer, a code point beyond `u32`, or one that is not a
/// Unicode scalar value.
pub open spec fn decode_from(d: Seq<char>, p: int, out: Seq<char>, n: int, i: int, bias: int) -> Option<Seq<char>>
    decreases d.len() - p,
{
    if p < 0 || p >= d.len() {
        Some(out)
    } else {
        match read_vli(d, p, i, 1, 36, bias) {
            None => None,
            Some((i2, p2)) => {
                proof {
                    lemma_read_vli(d, p, i, 1, 36, bias);
                }
                let len: int = out.len() + 1int;
                let il = i2 / len;
                if n > u32::MAX - il {
                    None
                } else if !is_scalar_value(n + il) {
                    None
                } else {
                    decode_from(
                        d,
                        p2,
                        out.insert(i2 % len, ((n + il) as u32) as char),
                        n + il,
                        i2 % len + 1,
                        adapt_spec((i2 - i) as nat, len as nat, i == 0) as int,
                    )
                }
            },
        }
    }
}

/// What a Punycode label (without its `xn--` prefix) decodes to: `None`
/// unless it is ASCII; otherwise its basic code points with the decoded
/// deltas inserted, starting from `n = 128`, `i = 0`, `bias = 72`.
pub open spec fn decode_spec(s: Seq<char>) -> Option<Seq<char>> {
    if !all_basic(s) {
        None
    } else {
        decode_from(encoded_deltas(s), 0, encoded_basic(s), 128, 0, 72)
    }
}

/// # Decode!
///
/// Decode a Punycode label (without its `xn--` prefix), as
/// [`decode_spec`] describes: non-ASCII input and malformed or overflowing
/// deltas give `None`.
pub fn decode(input: &str) -> (r: Option<String>)
    requires
        input@.len() < 0xFFFF_FFFF,
    ensures
        match decode_spec(input@) {
            None => r is None,
            Some(o) => r matches Some(x) && x@ == o,
        },
        r matches Some(o) ==> basic_part(o@) == encoded_basic(input@),
{
    let chars = str_chars(input);
    let clen = chars.len();
    let mut j: usize = 0;
    while j < clen
        invariant
            clen == chars@.len(),
            chars@ == input@,
            j <= clen,
            forall|k: int| 0 <= k < j ==> is_basic(#[trigger] chars@[k]),
        decreases clen - j,
    {
        if (chars[j] as u32) >= 128 {
            assert(!is_basic(input@[j as int]));
            return None;
        }
        j = j + 1;
    }
    let mut pos = clen;
    while pos > 0 && chars[pos - 1] != DELIMITER
        invariant
            pos <= clen,
            clen == chars@.len(),
            last_delimiter_before(chars@, clen as int) == last_delimiter_before(chars@, pos as int),
        decreases pos,
    {
        pos = pos - 1;
    }
    proof {
        lemma_last_delimiter(chars@, clen as int);
    }
    let mut output: Vec<char>;
    let mut p: usize;
    if pos > 0 {
        output = sub_chars(chars.as_slice(), 0, pos - 1);
        p = pos;
        assert(encoded_basic(input@) == output@);
        assert(encoded_deltas(input@) =~= chars@.skip(p as int));
    } else {
        output = Vec::new();
        p = 0;
        assert(encoded_basic(input@) =~= output@);
        assert(encoded_deltas(input@) =~= chars@.skip(0));
    }
    proof {
        assert(all_basic(output@));
        lemma_basic_part_all(output@);
    }
    let ghost p0 = p;
    let ghost d = encoded_deltas(input@);
    let mut n: u32 = INITIAL_N;
    let mut i: u32 = 0;
    let mut bias: u32 = INITIAL_BIAS;
    while p < clen
        invariant
            clen == chars@.len(),
            clen < 0xFFFF_FFFF,
            p <= clen,
            output@.len() <= p,
            i <= output@.len(),
            n >= 128,
            bias <= 215,
            basic_part(output@) == encoded_basic(input@),
            p0 <= p,
            d == chars@.skip(p0 as int),
            d == encoded_deltas(input@),
            all_basic(input@),
            decode_spec(input@) == decode_from(d, p - p0, output@, n as int, i as int, bias as int),
        decreases clen - p,
    {
        let old_i = i;
        let ghost p_in = p;
        let mut weight: u32 = 1;
        let mut k: u128 = 36;
        loop
            invariant_except_break
                k == 36 * (p - p_in + 1),
                read_vli(d, p_in - p0, old_i as int, 1, 36, bias as int) == read_vli(
                    d,
                    p - p0,
                    i as int,
                    weight as int,
                    k as int,
                    bias as int,
                ),
            invariant
                clen == chars@.len(),
                p_in <= p <= clen,
                p_in < clen,
                weight >= 1,
                old_i <= i,
                bias <= 215,
                p0 <= p_in,
                d == chars@.skip(p0 as int),
                decode_spec(input@) == decode_from(d, p_in - p0, output@, n as int, old_i as int, bias as int),
            ensures
                p_in < p <= clen,
                old_i <= i,
                read_vli(d, p_in - p0, old_i as int, 1, 36, bias as int) == Some((i as int, p - p0)),
            decreases clen - p,
        {
            if p >= clen {
                assert(read_vli(d, p - p0, i as int, weight as int, k as int, bias as int) is None);
                return None;
            }
            let c = chars[p];
            assert(d[p - p0] == c);
            let ghost pp = p;
            p = p + 1;
            let digit = decode_digit(c);
            if digit == BASE {
                assert(read_vli(d, pp - p0, i as int, weight as int, k as int, bias as int) is None);
                return None;
            }
            if digit > (u32::MAX - i) / weight {
                assert(read_vli(d, pp - p0, i as int, weight as int, k as int, bias as int) is None);
                return None;
            }
            assert(digit * weight <= u32::MAX - i) by (nonlinear_arith)
                requires
                    digit <= (u32::MAX - i) as int / weight as int,
                    weight >= 1,
            ;
            i = i + digit * weight;
            let t: u32 = if (T_MIN + bias) as u128 >= k {
                T_MIN
            } else if (T_MAX + bias) as u128 <= k {
                T_MAX
            } else {
                (k - bias as u128) as u32
            };
            assert(1 <= t <= 26);
            assert(t == threshold(k as int, bias as int));
            if digit < t {
                break;
            }
            if BASE > (u32::MAX - t) / weight {
                assert(read_vli(d, pp - p0, (i - digit * weight) as int, weight as int, k as int, bias as int) is None);
                return None;
            }
            assert(weight * (BASE - t) <= u32::MAX) by (nonlinear_arith)
                requires
                    BASE <= (u32::MAX - t) as int / weight as int,
                    weight >= 1,
                    1 <= t <= 26,
            ;
            assert(weight * (BASE - t) >= 1) by (nonlinear_arith)
                requires
                    weight >= 1,
                    1 <= t <= 26,
            ;
            weight = weight * (BASE - t);
            k = k + 36;
        }
        let len: u32 = (output.len() + 1) as u32;
        bias = adapt(i - old_i, len, old_i == 0);
        let il = i / len;
        if n > u32::MAX - il {
            return None;
        }
        n = n + il;
        i = i % len;
        match char_from_u32(n) {
            None => {
                return None;
            },
            Some(c) => {
                proof {
                    lemma_basic_part_insert(output@, i as int, c);
                    vstd::utf8::char_u32_cast(c, n);
                }
                output.insert(i as usize, c);
            },
        }
        i = i + 1;
    }
    assert(p - p0 >= d.len());
    Some(chars_to_string(output.as_slice()))
}

/// How many characters of `s` have a code point below `cp`.
pub open spec fn count_below(s: Seq<char>, cp: int) -> nat
    decreases s.len(),
{
    if s.len() == 0 {
        0
    } else {
        count_below(s.drop_last(), cp) + if (s.last() as u32) < cp {
            1nat
        } else {
            0nat
        }
    }
}

/// How many characters of `s` have the code point `cp`.
pub open spec fn count_eq(s: Seq<char>, cp: int) -> nat
    decreases s.len(),
{
    if s.len() == 0 {
        0
    } else {
        count_eq(s.drop_last(), cp) + if (s.last() as u32) == cp {
            1nat
        } else {
            0nat
        }
    }
}

/// What an encoding starts with: the ASCII characters of the input, then a
/// delimiter when there are any.
pub open spec fn encoded_head(s: Seq<char>) -> Seq<char> {
    if basic_part(s).len() > 0 {
        basic_part(s) + seq![DELIMITER]
    } else {
        basic_part(s)
    }
}

pub(crate) proof fn lemma_basic_part_push(s: Seq<char>, c: char)
    ensures
        basic_part(s.push(c)) == if is_basic(c) {
            basic_part(s).push(c)
        } else {
            basic_part(s)
        },
{
    reveal(Seq::filter);
    assert(s.push(c).drop_last() =~= s);
}

pub(crate) proof fn lemma_basic_part_count(s: Seq<char>)
    ensures
        basic_part(s).len() == count_below(s, 128),
    decreases s.len(),
{
    if s.len() > 0 {
        lemma_basic_part_count(s.drop_last());
        lemma_basic_part_push(s.drop_last(), s.last());
        assert(s.drop_last().push(s.last()) =~= s);
    } else {
        reveal(Seq::filter);
    }
}

proof fn lemma_count_bounds(s: Seq<char>, cp: int)
    ensures
        count_below(s, cp) <= s.len(),
        count_below(s, cp) + count_eq(s, cp) <= s.len(),
        count_below(s, cp + 1) == count_below(s, cp) + count_eq(s, cp),
        count_below(s, cp) < s.len() ==> exists|j: int| 0 <= j < s.len() && (s[j] as u32) >= cp,
    decreases s.len(),
{
    if s.len() > 0 {
        lemma_count_bounds(s.drop_last(), cp);
        if count_below(s, cp) < s.len() && (s.last() as u32) < cp {
            let j = choose|j: int| 0 <= j < s.drop_last().len() && (s.drop_last()[j] as u32) >= cp;
            assert(s[j] == s.drop_last()[j]);
        }
        if count_below(s, cp) < s.len() && (s.last() as u32) >= cp {
            assert(0 <= s.len() - 1 < s.len() && (s[s.len() - 1] as u32) >= cp);
        }
    }
}

/// With no character in `lo..hi`, counting below either gives the same.
proof fn lemma_count_gap(s: Seq<char>, lo: int, hi: int)
    requires
        lo <= hi,
        forall|j: int| 0 <= j < s.len() && (s[j] as u32) >= lo ==> (s[j] as u32) >= hi,
    ensures
        count_below(s, lo) == count_below(s, hi),
    decreases s.len(),
{
    if s.len() > 0 {
        assert forall|j: int| 0 <= j < s.drop_last().len() && (s.drop_last()[j] as u32) >= lo implies (
        s.drop_last()[j] as u32) >= hi by {
            assert(s.drop_last()[j] == s[j]);
        }
        lemma_count_gap(s.drop_last(), lo, hi);
        assert(s.last() == s[s.len() - 1]);
    }
}

/// The digits of the generalized variable-length integer `q`, thresholds
/// from position `k` on.
pub open spec fn vli_digits(q: int, k: int, bias: int) -> Seq<char>
    decreases q,
{
    let t = threshold(k, bias);
    if q < t {
        seq![digit_char(q as u32)]
    } else {
        proof {
            assert((q - t) / (36 - t) < q) by (nonlinear_arith)
                requires
                    q >= t,
                    1 <= t <= 26,
            ;
        }
        seq![digit_char((t + (q - t) % (36 - t)) as u32)] + vli_digits((q - t) / (36 - t), k + 36, bias)
    }
}

/// The smallest code point at least `n` in `s`, or `u32::MAX` when there is
/// none.
pub open spec fn min_code_point(s: Seq<char>, n: int) -> int
    decreases s.len(),
{
    if s.len() == 0 {
        u32::MAX as int
    } else {
        let r = min_code_point(s.drop_last(), n);
        let v = (s.last() as u32) as int;
        if v >= n && v < r {
            v
        } else {
            r
        }
    }
}

/// One pass over `s` from `j` on, at code point `n`: each smaller code
/// point counts one more in `delta`; each equal one emits `delta`'s digits,
/// adapts the bias and starts `delta` over; the rest are skipped. The
/// characters emitted, whether no count overflowed, and the new `delta`,
/// `bias` and number of handled code points `h`.
pub open spec fn encode_pass(s: Seq<char>, j: int, n: int, delta: int, bias: int, h: int, b: int) -> (
    Seq<char>,
    bool,
    int,
    int,
    int,
)
    decreases s.len() - j,
{
    if j < 0 || j >= s.len() {
        (Seq::empty(), true, delta, bias, h)
    } else {
        let c = (s[j] as u32) as int;
        if c < n {
            if delta >= u32::MAX {
                (Seq::empty(), false, delta, bias, h)
            } else {
                encode_pass(s, j + 1, n, delta + 1, bias, h, b)
            }
        } else if c == n {
            let rest = encode_pass(
                s,
                j + 1,
                n,
                0,
                adapt_spec(delta as nat, (h + 1) as nat, h == b) as int,
                h + 1,
                b,
            );
            (vli_digits(delta, 36, bias) + rest.0, rest.1, rest.2, rest.3, rest.4)
        } else {
            encode_pass(s, j + 1, n, delta, bias, h, b)
        }
    }
}

/// The smallest code point at least `n` is a code point of `s` (when there
/// is one), lies between `n` and `u32::MAX`, and bounds every code point of
/// `s` that is at least `n`.
pub proof fn lemma_min_code_point(s: Seq<char>, n: int)
    ensures
        min_code_point(s, n) <= u32::MAX,
        n <= u32::MAX ==> n <= min_code_point(s, n),
        min_code_point(s, n) < u32::MAX ==> exists|j: int|
            0 <= j < s.len() && (s[j] as u32) as int == min_code_point(s, n),
        forall|j: int| 0 <= j < s.len() && (s[j] as u32) >= n ==> (s[j] as u32) >= min_code_point(s, n),
    decreases s.len(),
{
    if s.len() > 0 {
        let init = s.drop_last();
        lemma_min_code_point(init, n);
        if min_code_point(s, n) < u32::MAX {
            if min_code_point(s, n) == (s.last() as u32) as int {
                assert(s[s.len() - 1] == s.last());
            } else {
                let j = choose|j: int| 0 <= j < init.len() && (init[j] as u32) as int == min_code_point(init, n);
                assert(s[j] == init[j]);
            }
        }
        assert forall|j: int| 0 <= j < s.len() && (s[j] as u32) >= n implies (s[j] as u32) >= min_code_point(s, n) by {
            if j < init.len() {
                assert(s[j] == init[j]);
            }
        }
    }
}

/// The rounds of encoding from code point `n` on:
/// while fewer than all code points are handled, move `delta` on to the
/// smallest code point not below `n`, pass over the input, and go on one
/// past it. The characters emitted, and whether no step overflowed.
pub open spec fn encode_rounds(s: Seq<char>, n: int, delta: int, bias: int, h: int, b: int) -> (Seq<char>, bool)
    decreases u32::MAX + 2 - n,
{
    if h >= s.len() || n > u32::MAX || n < 0 {
        (Seq::empty(), true)
    } else {
        let m = min_code_point(s, n);
        if m - n > (u32::MAX - delta) / (h + 1) {
            (Seq::empty(), false)
        } else {
            let pass = encode_pass(s, 0, m, delta + (m - n) * (h + 1), bias, h, b);
            if !pass.1 || pass.2 >= u32::MAX {
                (pass.0, false)
            } else {
                proof {
                    lemma_min_code_point(s, n);
                }
                let rest = encode_rounds(s, m + 1, pass.2 + 1, pass.3, pass.4, b);
                (pass.0 + rest.0, rest.1)
            }
        }
    }
}

/// The Punycode encoding of `s`, and whether it succeeded: its ASCII
/// characters, a delimiter if there were any, then the encoded deltas of the
/// rest, as far as they got before a count overflowed.
pub open spec fn encode_spec(s: Seq<char>) -> (Seq<char>, bool) {
    let b = count_below(s, 128) as int;
    let r = encode_rounds(s, 128, 0, 72, b, b);
    (encoded_head(s) + r.0, r.1)
}

/// # Encode!
///
/// Append the Punycode encoding of `input` to `output`, as [`encode_spec`]
/// describes. Returns `false` if a count overflows, in which case `output`
/// holds what was written up to that point.
pub fn encode_into(input: &[char], output: &mut String) -> (r: bool)
    requires
        input@.len() <= u32::MAX,
    ensures
        final(output)@ == old(output)@ + encode_spec(input@).0,
        r == encode_spec(input@).1,
{
    let ghost out0 = output@;
    let ghost s = input@;
    let mut input_length: u32 = 0;
    let mut basic_length: u32 = 0;
    let ilen = input.len();
    let mut j: usize = 0;
    while j < ilen
        invariant
            ilen == s.len(),
            s == input@,
            ilen <= u32::MAX,
            j <= ilen,
            input_length == j,
            basic_length == count_below(s.take(j as int), 128),
            output@ == out0 + basic_part(s.take(j as int)),
        decreases ilen - j,
    {
        let c = input[j];
        proof {
            assert(s.take(j + 1) =~= s.take(j as int).push(c));
            assert(s.take(j as int).push(c).drop_last() =~= s.take(j as int));
            lemma_basic_part_push(s.take(j as int), c);
            lemma_basic_part_count(s.take(j as int));
        }
        input_length = input_length + 1;
        if (c as u32) < 128 {
            push_char(output, c);
            basic_length = basic_length + 1;
        }
        j = j + 1;
    }
    assert(s.take(ilen as int) =~= s);
    proof {
        lemma_basic_part_count(s);
    }
    if basic_length > 0 {
        push_char(output, DELIMITER);
    }
    assert(output@ =~= out0 + encoded_head(s));
    let ghost b = basic_length as int;
    let ghost total = encode_rounds(s, 128, 0, 72, b, b);
    let ghost mut em: Seq<char> = Seq::empty();
    let mut code_point: u32 = INITIAL_N;
    let mut delta: u32 = 0;
    let mut bias: u32 = INITIAL_BIAS;
    let mut processed: u32 = basic_length;
    if processed >= input_length {
        assert(output@ =~= out0 + encode_spec(s).0);
        return true;
    }
    assert(total == (em + encode_rounds(s, 128, 0, 72, b, b).0, encode_rounds(s, 128, 0, 72, b, b).1));
    while processed < input_length
        invariant
            ilen == s.len(),
            s == input@,
            input_length == ilen,
            out0 == old(output)@,
            128 <= code_point <= 0x110000,
            processed == count_below(s, code_point as int),
            basic_length == count_below(s, 128),
            b == basic_length as int,
            bias <= 215,
            total == encode_rounds(s, 128, 0, 72, b, b),
            output@ == out0 + encoded_head(s) + em,
            total == (em + encode_rounds(s, code_point as int, delta as int, bias as int, processed as int, b).0,
                encode_rounds(s, code_point as int, delta as int, bias as int, processed as int, b).1),
        decreases 0x110000 - code_point,
    {
        proof {
            lemma_count_bounds(s, code_point as int);
            lemma_min_code_point(s, code_point as int);
        }
        let ghost rounds = encode_rounds(s, code_point as int, delta as int, bias as int, processed as int, b);
        // Find the next largest code point.
        let mut m: u32 = u32::MAX;
        let mut jj: usize = 0;
        while jj < ilen
            invariant
                ilen == s.len(),
                s == input@,
                jj <= ilen,
                m as int == min_code_point(s.take(jj as int), code_point as int),
            decreases ilen - jj,
        {
            let v = input[jj] as u32;
            assert(s.take(jj + 1).drop_last() =~= s.take(jj as int));
            if v >= code_point && v < m {
                m = v;
            }
            jj = jj + 1;
        }
        assert(s.take(ilen as int) =~= s);
        proof {
            let w = choose|k: int| 0 <= k < s.len() && (s[k] as u32) >= code_point;
            char_is_scalar(s[w]);
            assert((s[w] as u32) >= m);
        }
        assert(m <= 0x10FFFF);
        proof {
            lemma_count_gap(s, code_point as int, m as int);
            lemma_count_bounds(s, m as int);
        }
        let min_code_point = m;
        if min_code_point - code_point > (u32::MAX - delta) / (processed + 1) {
            assert(output@ =~= out0 + encode_spec(s).0);
            return false;
        }
        assert((min_code_point - code_point) * (processed + 1) <= u32::MAX - delta) by (nonlinear_arith)
            requires
                min_code_point - code_point <= (u32::MAX - delta) as int / (processed + 1) as int,
                processed + 1 >= 1,
        ;
        delta = delta + (min_code_point - code_point) * (processed + 1);
        code_point = min_code_point;
        let ghost pass = encode_pass(s, 0, code_point as int, delta as int, bias as int, processed as int, b);
        let ghost em0 = em;
        assert(!pass.1 ==> rounds == (pass.0, false));
        let ghost mut ep: Seq<char> = Seq::empty();
        let ghost below = processed;
        let mut jj: usize = 0;
        while jj < ilen
            invariant
                ilen == s.len(),
                s == input@,
                jj <= ilen,
                input_length == ilen,
                out0 == old(output)@,
                below == count_below(s, code_point as int),
                total == (em0 + rounds.0, rounds.1),
                total == encode_rounds(s, 128, 0, 72, b, b),
                !pass.1 ==> rounds == (pass.0, false),
                processed == below + count_eq(s.take(jj as int), code_point as int),
                below + count_eq(s, code_point as int) <= ilen,
                basic_length == count_below(s, 128),
                b == basic_length as int,
                bias <= 215,
                code_point <= 0x10FFFF,
                output@ == out0 + encoded_head(s) + em0 + ep,
                pass == (ep + encode_pass(s, jj as int, code_point as int, delta as int, bias as int, processed as int, b).0,
                    encode_pass(s, jj as int, code_point as int, delta as int, bias as int, processed as int, b).1,
                    encode_pass(s, jj as int, code_point as int, delta as int, bias as int, processed as int, b).2,
                    encode_pass(s, jj as int, code_point as int, delta as int, bias as int, processed as int, b).3,
                    encode_pass(s, jj as int, code_point as int, delta as int, bias as int, processed as int, b).4),
            decreases ilen - jj,
        {
            let c = input[jj] as u32;
            proof {
                assert(s.take(jj + 1).drop_last() =~= s.take(jj as int));
                assert(s.take(jj + 1).last() == s[jj as int]);
                lemma_count_bounds(s.take(jj as int), code_point as int);
                lemma_count_bounds(s.take(jj + 1), code_point as int);
                lemma_count_prefix(s, jj + 1, code_point as int);
            }
            if c < code_point {
                if delta == u32::MAX {
                    proof {
                        em = em0 + ep;
                        assert(s[jj as int] as u32 == c);
                        assert(!encode_pass(s, jj as int, code_point as int, delta as int, bias as int, processed as int, b).1);
                        assert(pass.0 =~= ep);
                    }
                    assert(output@ =~= out0 + encode_spec(s).0);
                    return false;
                }
                delta = delta + 1;
            } else if c == code_point {
                let ghost digits = vli_digits(delta as int, 36, bias as int);
                let ghost mut ed: Seq<char> = Seq::empty();
                let ghost ep0 = ep;
                let mut q: u32 = delta;
                let mut k: u64 = 36;
                loop
                    invariant_except_break
                        k <= 36 + 36 * (delta - q),
                        digits == ed + vli_digits(q as int, k as int, bias as int),
                    invariant
                        q <= delta,
                        bias <= 215,
                        output@ == out0 + encoded_head(s) + em0 + ep0 + ed,
                    ensures
                        q < 26,
                        digits == ed + seq![digit_char(q)],
                    decreases q,
                {
                    let t: u32 = if k <= bias as u64 {
                        T_MIN
                    } else if k >= (bias + T_MAX) as u64 {
                        T_MAX
                    } else {
                        (k - bias as u64) as u32
                    };
                    assert(t == threshold(k as int, bias as int));
                    if q < t {
                        break;
                    }
                    let value = t + ((q - t) % (BASE - t));
                    assert(value < 36) by (nonlinear_arith)
                        requires
                            value == t + ((q - t) % (BASE - t)),
                            1 <= t <= 26,
                            BASE == 36,
                    ;
                    let dch = value_to_digit(value);
                    push_char(output, dch);
                    proof {
                        ed = ed.push(dch);
                    }
                    assert((q - t) / (BASE - t) < q) by (nonlinear_arith)
                        requires
                            1 <= t <= q,
                            t <= 26,
                            BASE == 36,
                    ;
                    q = (q - t) / (BASE - t);
                    k = k + 36;
                }
                let dch = value_to_digit(q);
                push_char(output, dch);
                proof {
                    ed = ed.push(dch);
                    ep = ep0 + ed;
                    assert(ed =~= digits);
                }
                bias = adapt(delta, processed + 1, processed == basic_length);
                delta = 0;
                processed = processed + 1;
            }
            jj = jj + 1;
        }
        assert(s.take(ilen as int) =~= s);
        if delta == u32::MAX {
            proof {
                em = em0 + ep;
            }
            assert(output@ =~= out0 + encode_spec(s).0);
            return false;
        }
        delta = delta + 1;
        code_point = code_point + 1;
        proof {
            em = em0 + ep;
        }
    }
    assert(output@ =~= out0 + encode_spec(s).0);
    true
}

/// Counting over a prefix never exceeds counting over the whole.
proof fn lemma_count_prefix(s: Seq<char>, j: int, cp: int)
    requires
        0 <= j <= s.len(),
    ensures
        count_eq(s.take(j), cp) <= count_eq(s, cp),
    decreases s.len() - j,
{
    if j < s.len() {
        lemma_count_prefix(s, j + 1, cp);
        assert(s.take(j + 1).drop_last() =~= s.take(j));
    } else {
        assert(s.take(j) =~= s);
    }
}

/// The Bootstring parameters are Punycode's: base 36, thresholds 1 to 26,
/// skew 38, damping 700, initial bias 72, first non-basic code point 128,
/// and `-` between the basic code points and the deltas.
pub proof fn lemma_punycode_parameters()
    ensures
        BASE == 36 && T_MIN == 1 && T_MAX == 26 && SKEW == 38 && DAMP == 700,
        INITIAL_BIAS == 72 && INITIAL_N == 128 && DELIMITER == '-',
{
}

/// The threshold at position `k` is `k - bias`, kept between 1 and 26.
pub proof fn lemma_threshold(k: int, bias: int)
    ensures
        1 <= threshold(k, bias) <= 26,
        k - bias <= 1 ==> threshold(k, bias) == 1,
        k - bias >= 26 ==> threshold(k, bias) == 26,
        1 <= k - bias <= 26 ==> threshold(k, bias) == k - bias,
{
}

/// Digit values: `a` to `z` are 0 to 25, `0` to `9` are 26 to 35, and
/// upper-case letters read as their lower-case ones.
pub proof fn lemma_digits(v: u32, c: char)
    ensures
        v < 26 ==> digit_char(v) as u32 == 97 + v,
        26 <= v < 36 ==> digit_char(v) as u32 == 22 + v,
        'a' <= c <= 'z' ==> digit_value(c) == (c as u32) - 97,
        'A' <= c <= 'Z' ==> digit_value(c) == (c as u32) - 65,
        '0' <= c <= '9' ==> digit_value(c) == (c as u32) - 22,
        !('a' <= c <= 'z' || 'A' <= c <= 'Z' || '0' <= c <= '9') ==> digit_value(c) == 36,
{
}

/// Digits round-trip: decoding the digit of a value gives the value back.
pub proof fn lemma_digit_roundtrip(v: u32)
    requires
        v < 36,
    ensures
        digit_value(digit_char(v)) == v,
        is_digit_char(digit_char(v)),
{
}

} // verus!

