use adbyss::puny::{adapt, decode, decode_digit, encode_into, value_to_digit};

#[test]
fn digits_round_trip() {
	for v in 0..36 {
		assert_eq!(decode_digit(value_to_digit(v)), v);
	}
	assert_eq!(value_to_digit(0), 'a');
	assert_eq!(value_to_digit(26), '0');
	assert_eq!(decode_digit('Z'), 25);
	assert_eq!(decode_digit('-'), 36);
}

#[test]
fn adapt_values() {
	assert_eq!(adapt(0, 1, true), 0);
	assert_eq!(adapt(700, 1, true), 1);
	assert_eq!(adapt(1000, 2, false), 48);
	assert!(adapt(u32::MAX, 1, false) <= 215);
}

#[test]
fn decode_examples() {
	assert_eq!(decode("74h"), Some(String::from("☺")));
	assert_eq!(decode("bcher-kva"), Some(String::from("bücher")));
	assert_eq!(decode("abc-"), Some(String::from("abc")));
	assert_eq!(decode("☺"), None);
	assert_eq!(decode("!"), None);
}

#[test]
fn encode_examples() {
	let mut out = String::new();
	assert!(encode_into(&"☺".chars().collect::<Vec<char>>(), &mut out));
	assert_eq!(out, "74h");

	let mut out = String::from("xn--");
	assert!(encode_into(&"bücher".chars().collect::<Vec<char>>(), &mut out));
	assert_eq!(out, "xn--bcher-kva");

	let mut out = String::new();
	assert!(encode_into(&"abc".chars().collect::<Vec<char>>(), &mut out));
	assert_eq!(out, "abc-");
}

#[test]
fn encode_then_decode() {
	for label in ["bücher", "☺", "abc", "a-b-ü", "münchen-straße", "日本語", "ü", "wörter.und.ß"] {
		let chars: Vec<char> = label.chars().collect();
		let mut out = String::new();
		assert!(encode_into(&chars, &mut out));
		assert_eq!(decode(&out), Some(String::from(label)));
	}
}

#[test]
fn long_label_round_trip_hits_decoder_bound() {
	// 3,176 ASCII letters and one character at the top of Unicode: the
	// encoder's single integer fits in `u32`, but the decoder's weight bound
	// refuses it.
	let label: String = "a".repeat(3176) + "\u{10FFFF}";
	let chars: Vec<char> = label.chars().collect();
	let mut out = String::new();
	assert!(encode_into(&chars, &mut out));
	assert_eq!(decode(&out), None);

	// At a hundred characters, the round trip always holds.
	let label: String = "a".repeat(99) + "\u{10FFFF}";
	let chars: Vec<char> = label.chars().collect();
	let mut out = String::new();
	assert!(encode_into(&chars, &mut out));
	assert_eq!(decode(&out), Some(label));
}

#[test]
fn long_label_with_small_code_points_round_trips() {
	// Thousands of characters, but code points close together: every
	// integer stays small enough for the decoder.
	let label: String = "ü".to_owned() + &"a".repeat(5000) + "é";
	let chars: Vec<char> = label.chars().collect();
	let mut out = String::new();
	assert!(encode_into(&chars, &mut out));
	assert_eq!(decode(&out), Some(label));
}
