use adbyss::error::AdbyssError;
use adbyss::hosts::{
	found_compact, found_separate, hostfile_stub, parse_names, stub_entry_lines, HostsStub,
	Shitlist, Watermark,
};
use adbyss::psl::Domain;
use adbyss::sources::{Source, ADBYSS_LIST};
use adbyss::write::custom_host_names;
use adbyss::{FLAG_ADBYSS, FLAG_BACKUP, FLAG_COMPACT, FLAG_Y};


/// Whether a word is written like an IPv4 or IPv6 address: hex digits, dots
/// and colons only, with a dot or a colon. (Enough for these inputs; the
/// program itself asks the standard library's address parser.)
fn looks_like_address(w: &str) -> bool {
	w.chars().all(|c| c.is_ascii_hexdigit() || c == '.' || c == ':')
		&& (w.contains('.') || w.contains(':'))
}

/// Parse custom hosts: the names on lines whose first word is an address.
fn parse_custom_hosts(raw: &str) -> Vec<String> {
	let lines = stub_entry_lines(raw);
	let ip: Vec<bool> = lines.iter()
		.map(|l| l.first().is_some_and(|w| looks_like_address(w)))
		.collect();
	parse_names(&custom_host_names(&lines, &ip)).into_iter().map(Domain::take).collect()
}

fn strings(v: &[&str]) -> Vec<String> { v.iter().map(|s| (*s).to_owned()).collect() }

#[test]
fn t_parse_custom_hosts() {
	let mut test: Vec<String> = parse_custom_hosts(r#"#############
# Localhost #
#############

127.0.0.1 localhost
127.0.1.1 Computer
127.0.0.1 my-dev.loc some-other.loc
172.19.0.2 docker-mysql

##################
# Manual Records #
##################

140.82.113.4 github.com www.github.com
100.100.100.1 0.nextyourcontent.com
2600:3c00::f03c:91ff:feae:ff2 blobfolio.com

########
# IPv6 #
########

::1     ip6-localhost ip6-loopback domain.com www.domain.com
fe00::0 ip6-localnet
ff00::0 ip6-mcastprefix
ff02::1 ip6-allnodes
ff02::2 ip6-allrouters"#);
	test.sort();

	assert_eq!(
		test,
		vec![
			String::from("0.nextyourcontent.com"),
			String::from("blobfolio.com"),
			String::from("domain.com"),
			String::from("github.com"),
			String::from("www.domain.com"),
			String::from("www.github.com"),
		]
	);
}

#[test]
fn watermark_steps() {
	assert_eq!(Watermark::Zero.next(), Watermark::One);
	assert_eq!(Watermark::Three.next(), Watermark::Three);
	assert_eq!(Watermark::Two.as_str(), "# ADBYSS #");
	assert_eq!(Watermark::Zero.is_match("##########"), Watermark::One);
	assert_eq!(Watermark::One.is_match("# ADBYSS #"), Watermark::Two);
	assert_eq!(Watermark::Two.is_match("##########"), Watermark::Three);
	assert_eq!(Watermark::One.is_match(" # ADBYSS #"), Watermark::Zero);
}

#[test]
fn stub_stops_at_marker() {
	let lines = strings(&[
		"127.0.0.1 localhost", "  # mine  ", "", "##########", "# ADBYSS #", "##########",
		"0.0.0.0 x.com",
	]);
	assert_eq!(hostfile_stub(&lines), String::from("127.0.0.1 localhost\n# mine\n"));

	// No marker: every line, trimmed.
	let lines = strings(&[" a ", "b"]);
	assert_eq!(hostfile_stub(&lines), String::from("a\nb\n"));

	// A marker on the very first line leaves an empty user part.
	let lines = strings(&["##########", "# ADBYSS #", "##########", "0.0.0.0 x.com"]);
	assert_eq!(hostfile_stub(&lines), String::from("\n"));
}

#[test]
fn compact_and_separate() {
	let found = vec![
		Domain::parse("a.com").unwrap(),
		Domain::parse("b.a.com").unwrap(),
		Domain::parse("c.org").unwrap(),
	];
	assert_eq!(found_compact(&found), strings(&["a.com b.a.com", "c.org"]));
	assert_eq!(found_separate(&found), strings(&["a.com", "b.a.com", "c.org"]));
}

#[test]
fn builder_flow() {
	let sl = Shitlist::default()
		.with_flags(FLAG_ADBYSS | FLAG_COMPACT)
		.with_hostfile(String::from("/tmp/hosts"))
		.without(&strings(&["snitcher.com", "not a domain"]));
	assert!(sl.is_empty());
	assert_eq!(sl.hostfile(), "/tmp/hosts");
	assert!(sl.needs_confirmation());
	assert!(! sl.backs_up());

	let fetched = vec![(Source::Adbyss, Ok(String::from(ADBYSS_LIST)))];
	let stub = HostsStub {
		text: String::from("127.0.0.1 localhost\n"),
		custom: strings(&["trendmd.com"]),
	};
	let built = sl.build(&fetched, &Some(stub)).unwrap();
	assert_eq!(built.len(), 18);
	assert!(built.as_str().starts_with("127.0.0.1 localhost\n\n##########\n# ADBYSS #\n##########\n"));
	assert!(built.as_str().contains("# Blocked: 18 garbage hosts\n"));
	assert!(built.as_str().contains("\n0.0.0.0 collect.snitcher.com snid.snitcher.com www.snitcher.com\n"));
	assert_eq!(built.as_bytes(), built.as_str().as_bytes());
	let hosts = built.into_vec();
	assert!(! hosts.contains(&String::from("snitcher.com")));
	assert!(! hosts.contains(&String::from("trendmd.com")));
	assert!(hosts.contains(&String::from("www.trendmd.com")));
	assert!(hosts.windows(2).all(|w| w[0] < w[1]));

	// Without the hosts file there is no output.
	let sl = Shitlist::default().with_flags(FLAG_ADBYSS).with_hostfile(String::from("/tmp/hosts"));
	assert!(matches!(sl.build(&fetched, &None), Err(AdbyssError::Read(p)) if p == "/tmp/hosts"));
}

#[test]
fn flags_and_patterns() {
	let mut sl = Shitlist::default().with_flags(FLAG_Y | FLAG_BACKUP);
	assert!(! sl.needs_confirmation());
	assert!(sl.backs_up());
	sl.disable_flags(FLAG_Y);
	assert!(sl.needs_confirmation());
	sl.set_flags(FLAG_ADBYSS);

	let stub = Some(HostsStub { text: String::new(), custom: Vec::new() });
	let sl = sl.without_regex(&strings(&["^www\\."]))
		.with(&strings(&["www.x.com", "y.com"]), &stub);
	// The www twin joins; the www host itself is excluded by pattern.
	assert_eq!(sl.into_vec(), strings(&["x.com", "y.com"]));
}

#[test]
fn compact_keeps_a_host_of_full_length() {
	// 63 + 63 + 63 + 49 + 3 characters and four dots: 245 in all.
	let host = format!("{}.{}.{}.{}.com", "a".repeat(63), "b".repeat(63), "c".repeat(63), "d".repeat(49));
	assert_eq!(host.len(), 245);
	let long = Domain::parse(&host).unwrap();
	let short = Domain::parse(&format!("{}.com", "d".repeat(49))).unwrap();
	let found = vec![long, short];
	let mut found = found;
	found.sort_by(|a, b| a.host().cmp(b.host()));
	let lines = found_compact(&found);
	let mut hosts: Vec<&str> = lines.iter().flat_map(|l| l.split(' ')).collect();
	hosts.sort_unstable();
	let mut want: Vec<&str> = found.iter().map(Domain::host).collect();
	want.sort_unstable();
	assert_eq!(hosts, want);
	assert!(lines.iter().all(|l| l.len() <= 245));
}
