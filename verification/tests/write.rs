use adbyss::outside::nice_u64;
use adbyss::psl::Domain;
use adbyss::write::{
	custom_host_lines, custom_host_names, header, strip_adbyss, Shitlist, MARKER_END, MARKER_START,
};
use std::collections::BTreeSet;


/// Whether a word is written like an IPv4 or IPv6 address: hex digits, dots
/// and colons only, with a dot or a colon. (Enough for these inputs; the
/// program itself asks the standard library's address parser.)
fn looks_like_address(w: &str) -> bool {
	w.chars().all(|c| c.is_ascii_hexdigit() || c == '.' || c == ':')
		&& (w.contains('.') || w.contains(':'))
}

/// A hosts file with custom entries and an Adbyss section.
const FULL_HOSTS: &str = "#############
# Localhost #
#############

127.0.0.1 localhost
127.0.1.1 Computer

##################
# Manual Records #
##################

140.82.113.4 github.com www.github.com
2600:3c00::f03c:91ff:feae:ff2 blobfolio.com

##########
# ADBYSS #
##########
#
# This section is automatically generated. Don't make any changes here or
# they'll just get blown away the next time Adbyss is run.
#
# If you have custom host entries, add them before or after this section.
#
# Updated: 2024-01-01 00:00:00 UTC
# Blocked: 2 garbage hosts
#
# Eat the rich.
#
##########

0.0.0.0 analytics.com
0.0.0.0 yahoo.com

## End of Adbyss Rules ##
";

/// The same file without its Adbyss section.
const STRIPPED_HOSTS: &str = "#############
# Localhost #
#############

127.0.0.1 localhost
127.0.1.1 Computer

##################
# Manual Records #
##################

140.82.113.4 github.com www.github.com
2600:3c00::f03c:91ff:feae:ff2 blobfolio.com
";

/// Strip a hosts file as the program reads it.
fn read_hosts(raw: &str) -> (String, bool) { strip_adbyss(raw) }

/// The names of the custom entries, deciding addresses as the program does.
fn custom_names(stub: &str) -> Vec<String> {
	let lines = custom_host_lines(stub);
	let ip: Vec<bool> = lines.iter()
		.map(|l| l.first().is_some_and(|w| looks_like_address(w)))
		.collect();
	custom_host_names(&lines, &ip)
}

#[test]
fn t_shitlist_fmt() {
	let set: BTreeSet<Domain> = BTreeSet::from([
		Domain::parse("blobfolio.com").unwrap(),
		Domain::parse("facebook.com").unwrap(),
		Domain::parse("google.com").unwrap(),
		Domain::parse("www.blobfolio.com").unwrap(),
		Domain::parse("www.google.com").unwrap(),
		Domain::parse("www1.blobfolio.com").unwrap(),
		Domain::parse("www10.blobfolio.com").unwrap(),
		Domain::parse("www11.blobfolio.com").unwrap(),
		Domain::parse("www12.blobfolio.com").unwrap(),
		Domain::parse("www13.blobfolio.com").unwrap(),
		Domain::parse("www2.blobfolio.com").unwrap(),
		Domain::parse("www3.blobfolio.com").unwrap(),
		Domain::parse("www4.blobfolio.com").unwrap(),
		Domain::parse("www5.blobfolio.com").unwrap(),
		Domain::parse("www6.blobfolio.com").unwrap(),
		Domain::parse("www7.blobfolio.com").unwrap(),
		Domain::parse("www8.blobfolio.com").unwrap(),
		Domain::parse("www9.blobfolio.com").unwrap(),
	]);

	// Flat.
	assert_eq!(
		Shitlist::Flat(set.iter().cloned().collect()).render(),
		"0.0.0.0 blobfolio.com
0.0.0.0 facebook.com
0.0.0.0 google.com
0.0.0.0 www.blobfolio.com
0.0.0.0 www.google.com
0.0.0.0 www1.blobfolio.com
0.0.0.0 www10.blobfolio.com
0.0.0.0 www11.blobfolio.com
0.0.0.0 www12.blobfolio.com
0.0.0.0 www13.blobfolio.com
0.0.0.0 www2.blobfolio.com
0.0.0.0 www3.blobfolio.com
0.0.0.0 www4.blobfolio.com
0.0.0.0 www5.blobfolio.com
0.0.0.0 www6.blobfolio.com
0.0.0.0 www7.blobfolio.com
0.0.0.0 www8.blobfolio.com
0.0.0.0 www9.blobfolio.com
",
	);

	// Compact.
	assert_eq!(
		Shitlist::Compact(set.iter().cloned().collect()).render(),
		"0.0.0.0 blobfolio.com www.blobfolio.com www1.blobfolio.com www10.blobfolio.com www11.blobfolio.com www12.blobfolio.com www13.blobfolio.com www2.blobfolio.com www3.blobfolio.com www4.blobfolio.com www5.blobfolio.com www6.blobfolio.com www7.blobfolio.com
0.0.0.0 www8.blobfolio.com www9.blobfolio.com
0.0.0.0 facebook.com
0.0.0.0 google.com www.google.com
",
	);
}

#[test]
fn t_read_hosts() {
	// Strip the adbyss chunks from the test hosts file.
	let (stub, changed) = read_hosts(FULL_HOSTS);
	assert!(changed, "The host should have gotten stripped.");
	assert_eq!(stub, STRIPPED_HOSTS);
}

#[test]
fn t_prune_hosts() {
	let mut list = Shitlist::Flat(vec![
		Domain::parse("analytics.com").unwrap(),
		Domain::parse("blobfolio.com").unwrap(),
		Domain::parse("yahoo.com").unwrap(),
	]);
	let (stub, _) = read_hosts(FULL_HOSTS);

	// Parse and prune the stub hosts.
	list.prune_hosts(&custom_names(&stub));

	// That should have removed blobfolio.com.
	assert_eq!(
		list.into_vec(),
		&[
			Domain::parse("analytics.com").unwrap(),
			Domain::parse("yahoo.com").unwrap(),
		]
	);
}

#[test]
fn t_append() {
	// Flat.
	let list = Shitlist::Flat(vec![
		Domain::parse("analytics.com").unwrap(),
		Domain::parse("blobfolio.com").unwrap(),
		Domain::parse("www.blobfolio.com").unwrap(),
		Domain::parse("yahoo.com").unwrap(),
	]);

	let (mut stub, _) = read_hosts(FULL_HOSTS);

	list.append(&mut stub).expect("Append failed!");
	assert!(stub.contains(MARKER_START));
	assert!(stub.contains("0.0.0.0 analytics.com"));
	assert!(stub.contains("0.0.0.0 blobfolio.com"));
	assert!(stub.contains("0.0.0.0 www.blobfolio.com"));
	assert!(stub.contains("0.0.0.0 yahoo.com"));
	assert!(stub.contains(MARKER_END));

	// Compact.
	let list = Shitlist::Compact(vec![
		Domain::parse("analytics.com").unwrap(),
		Domain::parse("blobfolio.com").unwrap(),
		Domain::parse("www.blobfolio.com").unwrap(),
		Domain::parse("yahoo.com").unwrap(),
	]);

	let (mut stub, _) = read_hosts(FULL_HOSTS);

	list.append(&mut stub).expect("Append failed!");
	assert!(stub.contains(MARKER_START));
	assert!(stub.contains("0.0.0.0 analytics.com"));
	assert!(stub.contains("0.0.0.0 blobfolio.com www.blobfolio.com"));
	assert!(stub.contains("0.0.0.0 yahoo.com"));
	assert!(stub.contains(MARKER_END));
}

#[test]
fn append_then_strip_gives_stub_back() {
	let list = Shitlist::Compact(vec![
		Domain::parse("analytics.com").unwrap(),
		Domain::parse("yahoo.com").unwrap(),
	]);
	let (mut out, _) = read_hosts(FULL_HOSTS);
	let stub = out.clone();
	list.append(&mut out).expect("Append failed!");
	assert!(out.starts_with(&stub));
	assert!(out.ends_with(MARKER_END));
	assert_eq!(read_hosts(&out), (stub, true));
}

#[test]
fn strip_without_section_only_trims_the_end() {
	assert_eq!(read_hosts("127.0.0.1 localhost\n\n\n  "), (String::from("127.0.0.1 localhost\n"), false));
	assert_eq!(read_hosts(""), (String::from("\n"), false));
}

#[test]
fn strip_unterminated_section_truncates() {
	let raw = format!("a b\n{MARKER_START}\n0.0.0.0 x.com\n");
	assert_eq!(read_hosts(&raw), (String::from("a b\n"), true));
}

#[test]
fn strip_stray_end_marker() {
	let raw = format!("a b\n{MARKER_END}c d\n");
	assert_eq!(read_hosts(&raw), (String::from("a b\nc d\n"), true));
}

#[test]
fn strip_two_sections() {
	let raw = format!("one\n{MARKER_START}\nx\n{MARKER_END}two\n{MARKER_START}\ny\n{MARKER_END}three\n");
	assert_eq!(read_hosts(&raw), (String::from("one\ntwo\nthree\n"), true));
}

#[test]
fn custom_lines_cut_comments() {
	let lines = custom_host_lines("  1.2.3.4   a.com b.com # c.com\n# only a comment\n\nx y\n");
	assert_eq!(lines, vec![
		vec![String::from("1.2.3.4"), String::from("a.com"), String::from("b.com")],
		vec![],
		vec![],
		vec![String::from("x"), String::from("y")],
	]);
	let names = custom_host_names(&lines, &vec![true, false, false, false]);
	assert_eq!(names, vec![String::from("a.com"), String::from("b.com")]);
}

#[test]
fn header_counts_hosts() {
	assert_eq!(header(0, &String::from("2024-01-01 00:00:00")), format!("{MARKER_START}\n"));
	let h = header(1234, &String::from("2024-01-01 00:00:00"));
	assert!(h.starts_with(MARKER_START));
	assert!(h.contains("# Updated: 2024-01-01 00:00:00 UTC\n"));
	assert!(h.contains("# Blocked: 1,234 garbage hosts\n"));
	assert!(h.ends_with("##########\n"));
}

#[test]
fn compact_long_host_gets_own_line() {
	let long = format!("{0}.{0}.{0}.{1}.com", "a".repeat(63), "d".repeat(50));
	assert_eq!(long.len(), 246);
	let list = Shitlist::Compact(vec![
		Domain::parse("b.com").unwrap(),
		Domain::parse(&long).unwrap(),
	]);
	// Grouped by TLD: the long one is its own TLD group.
	let out = list.render();
	assert!(out.contains(&format!("0.0.0.0\n0.0.0.0 {long}\n")));
	assert!(out.contains("0.0.0.0 b.com\n"));
}

#[test]
fn estimate_counts_hosts() {
	let list = Shitlist::Flat(vec![
		Domain::parse("analytics.com").unwrap(),
		Domain::parse("yahoo.com").unwrap(),
	]);
	assert_eq!(list.estimate_byte_len(), 400 + 13 + 9 + 9 + 9);
	assert_eq!(list.len(), 2);
}

#[test]
fn counts_print_with_thousands_separators() {
	assert_eq!(nice_u64(0), "0");
	assert_eq!(nice_u64(999), "999");
	assert_eq!(nice_u64(54321), "54,321");
	assert_eq!(nice_u64(1_234_567), "1,234,567");
	assert_eq!(nice_u64(u64::MAX), "18,446,744,073,709,551,615");
}
