use adbyss::error::AdbyssError;
use adbyss::sources::{Source, ADBYSS_LIST};
use adbyss::{FLAG_ADAWAY, FLAG_ADBYSS, FLAG_ALL, FLAG_STEVENBLACK, FLAG_YOYO};

const STUB: &str = r"# AdAway default blocklist
# Blocking mobile ad providers and some analytics providers
#
# Project home page:
# https://github.com/AdAway/adaway.github.io/
#
# Fetch the latest version of this file:
# https://raw.githubusercontent.com/AdAway/adaway.github.io/master/hosts.txt
#
# License:
# CC Attribution 3.0 (http://creativecommons.org/licenses/by/3.0/)
#
# Contributions by:
# Kicelo, Dominik Schuermann.
# Further changes and contributors maintained in the commit history at
# https://github.com/AdAway/adaway.github.io/commits/master
#
# Contribute:
# Create an issue at https://github.com/AdAway/adaway.github.io/issues
#

0.0.0.0  localhost
::1  localhost

# [163.com]
0.0.0.0 analytics.163.com
0.0.0.0 crash.163.com # Comment.com here!
0.0.0.0 crashlytics.163.com
0.0.0.0 iad.g.163.com

# [1mobile.com]
0.0.0.0 ads.1mobile.com
0.0.0.0 api.1mobile.com";

/// The hosts a blackhole-format list gives.
fn parse_blackhole_hosts(raw: &str) -> Vec<String> {
	let patched = Source::StevenBlack.patch(raw.to_owned());
	Source::fetch_many(FLAG_STEVENBLACK, &vec![(Source::StevenBlack, Ok(patched))])
		.unwrap()
		.into_iter()
		.map(adbyss::psl::Domain::take)
		.collect()
}

#[test]
fn t_parse_blackhole_hosts() {
	let mut test: Vec<String> = parse_blackhole_hosts(STUB);
	test.sort();

	assert_eq!(
		test,
		vec![
			String::from("ads.1mobile.com"),
			String::from("analytics.163.com"),
			String::from("api.1mobile.com"),
			String::from("crash.163.com"),
			String::from("crashlytics.163.com"),
			String::from("iad.g.163.com"),
		]
	);
}

#[test]
fn names_and_flags() {
	assert_eq!(Source::AdAway.as_str(), "AdAway");
	assert_eq!(Source::StevenBlack.as_str(), "Steven Black");
	assert_eq!(Source::Yoyo.as_flag(), FLAG_YOYO);
	assert_eq!(Source::AdAway.as_flag() | Source::Adbyss.as_flag(), FLAG_ADAWAY | FLAG_ADBYSS);
	assert_eq!(Source::all().iter().fold(0, |a, s| a | s.as_flag()), FLAG_ALL);
	assert_eq!(Source::Adbyss.url(), "");
	assert_eq!(Source::AdAway.url(), "https://adaway.org/hosts.txt");
	assert_eq!(Source::StevenBlack.cache_name(), "_adbyss-sb.tmp");
	assert_eq!(Source::Yoyo.line_prefix(), "127.0.0.1 ");
	assert_eq!(Source::Adbyss.static_data(), Some(ADBYSS_LIST));
	assert_eq!(Source::Yoyo.static_data(), None);
}

#[test]
fn patch_keeps_prefixed_lines() {
	let raw = String::from("127.0.0.1 a.com\n# x\n127.0.0.1 b.com # c\n0.0.0.0 d.com\n127.0.0.1   \n127.0.0.1 e.com\r\n");
	assert_eq!(Source::AdAway.patch(raw.clone()), "a.com\nb.com\ne.com");
	assert_eq!(Source::StevenBlack.patch(raw.clone()), "d.com");
	assert_eq!(Source::Adbyss.patch(raw.clone()), raw);
}

#[test]
fn fetch_many_merges_enabled() {
	let fetched = vec![
		(Source::AdAway, Ok(String::from("b.com\na.com\n"))),
		(Source::Adbyss, Ok(String::from(ADBYSS_LIST))),
		(Source::Yoyo, Err(AdbyssError::SourceFetch(Source::Yoyo))),
	];
	let hosts: Vec<String> = Source::fetch_many(FLAG_ADAWAY, &fetched)
		.unwrap()
		.into_iter()
		.map(adbyss::psl::Domain::take)
		.collect();
	assert_eq!(hosts, vec![String::from("a.com"), String::from("b.com")]);

	// An enabled failure is an error.
	assert!(matches!(
		Source::fetch_many(FLAG_ALL, &fetched),
		Err(AdbyssError::SourceFetch(Source::Yoyo)),
	));

	// Adbyss' own list alone.
	let own = Source::fetch_many(FLAG_ADBYSS, &fetched).unwrap();
	assert_eq!(own.len(), 20);
	assert!(own.windows(2).all(|w| w[0].host() < w[1].host()));
}
