use adbyss::psl::Domain;
use adbyss::settings::{
	compile_regexclude, normalize_includes, snip_domain_line, source_domains, Settings,
	DEFAULT_CONFIG, DEFAULT_HOSTFILE,
};
use adbyss::sources::Source;
use adbyss::write::Shitlist;

/// The settings of the test configuration: only Adbyss' own source, two
/// manual includes and two manual excludes.
fn test_settings() -> Settings {
	let mut s = Settings::default();
	s.source_adaway = false;
	s.source_stevenblack = false;
	s.source_yoyo = false;
	s.extras = normalize_includes(vec![String::from("batman.com"), String::from("spiderman.com")]);
	s.exclude = vec![
		Domain::parse("collect.snitcher.com").unwrap(),
		Domain::parse("triptease.io").unwrap(),
	];
	s
}

/// What fetching the enabled sources gives.
fn fetched(s: &Settings) -> Vec<(Source, String)> {
	s.sources().into_iter()
		.map(|src| (src, src.static_data().unwrap_or("").to_owned()))
		.collect()
}

#[test]
fn t_filters() {
	let settings = test_settings();

	// The only enabled source should be our own (local) one.
	assert!(! settings.source_adaway);
	assert!(settings.source_adbyss);
	assert!(! settings.source_stevenblack);
	assert!(! settings.source_yoyo);

	// Parse the list.
	let res: Vec<String> = settings.shitlist(&fetched(&settings))
		.into_vec()
		.into_iter()
		.map(Domain::take)
		.collect();

	// Make sure our manual includes are present.
	assert!(res.contains(&String::from("batman.com")));
	assert!(res.contains(&String::from("spiderman.com")));

	// And our manual excludes are not.
	assert!(! res.contains(&String::from("collect.snitcher.com")));
	assert!(! res.contains(&String::from("triptease.io")));

	// Double check at least one of Adbyss' other entries is present.
	assert!(res.contains(&String::from("www.snitcher.com")));
}

#[test]
fn defaults() {
	let s = Settings::default();
	assert_eq!(s.hostfile, DEFAULT_HOSTFILE);
	assert_eq!(DEFAULT_CONFIG, "/etc/adbyss.yaml");
	assert!(s.backup());
	assert!(! s.compact());
	assert!(s.needs_internet());
	assert_eq!(s.sources(), vec![Source::AdAway, Source::Adbyss, Source::StevenBlack, Source::Yoyo]);
	assert!(! test_settings().needs_internet());
	assert_eq!(test_settings().sources(), vec![Source::Adbyss]);
}

#[test]
fn snip_lines() {
	assert_eq!(snip_domain_line("0.0.0.0 a.com # x", "0.0.0.0 "), Some(String::from("a.com")));
	assert_eq!(snip_domain_line("0.0.0.0    a.com\tb.com", "0.0.0.0 "), Some(String::from("a.com")));
	assert_eq!(snip_domain_line("0.0.0.0 a.com#x", "0.0.0.0 "), Some(String::from("a.com")));
	assert_eq!(snip_domain_line("127.0.0.1 a.com", "0.0.0.0 "), None);
	assert_eq!(snip_domain_line("0.0.0.0 # comment", "0.0.0.0 "), Some(String::new()));
}

#[test]
fn source_domains_www_twins() {
	let raw = "# comment\n127.0.0.1 www.a.com\n127.0.0.1 b.com # x\n0.0.0.0 c.com\n\n127.0.0.1  \n";
	assert_eq!(source_domains(raw, "127.0.0.1 "), vec![
		String::from("www.a.com"),
		String::from("a.com"),
		String::from("b.com"),
	]);
	// Without a prefix, every trimmed line counts.
	assert_eq!(source_domains("  x.com \n\nwww.y.org\n", ""), vec![
		String::from("x.com"),
		String::from("www.y.org"),
		String::from("y.org"),
	]);
}

#[test]
fn includes_normalized() {
	assert_eq!(
		normalize_includes(vec![
			String::from("WWW.Batman.com"),
			String::from("robin.com"),
			String::from("batman.com"),
		]),
		vec![String::from("batman.com"), String::from("robin.com"), String::from("www.batman.com")],
	);
	assert!(normalize_includes(Vec::new()).is_empty());
}

#[test]
fn regexclude_compiles() {
	assert!(matches!(compile_regexclude(&Vec::new()), Ok(None)));
	let set = compile_regexclude(&vec![String::from(r"^ads?\.")]).unwrap().unwrap();
	assert!(adbyss::outside::regex_set_is_match(&set, "ads.example.com"));
	assert!(!adbyss::outside::regex_set_is_match(&set, "example.com"));
	assert!(matches!(
		compile_regexclude(&vec![String::from("(")]),
		Err(adbyss::error::AdbyssError::Parse(_)),
	));
}

#[test]
fn shitlist_applies_patterns_and_sorts() {
	let mut s = test_settings();
	s.compact = true;
	s.regexclude = compile_regexclude(&vec![String::from("^www\\.")]).unwrap();
	let lists = vec![
		(Source::StevenBlack, String::from("0.0.0.0 zzz.com\n0.0.0.0 www.bad.net\n0.0.0.0 localhost\n")),
		(Source::Adbyss, String::from("aaa.org\nAAA.org\n")),
	];
	let list = s.shitlist(&lists);
	assert!(matches!(list, Shitlist::Compact(_)));
	let hosts: Vec<String> = list.into_vec().into_iter().map(Domain::take).collect();
	assert_eq!(hosts, vec![
		String::from("aaa.org"),
		String::from("bad.net"),
		String::from("batman.com"),
		String::from("spiderman.com"),
		String::from("zzz.com"),
	]);
}

#[test]
fn build_appends_section() {
	let s = test_settings();
	let stub = String::from("127.0.0.1 localhost\n");
	let (out, n) = s.build(stub.clone(), &fetched(&s), &vec![String::from("batman.com")]).unwrap();
	assert!(n > 0);
	assert!(out.starts_with(&stub));
	assert!(! out.contains("0.0.0.0 batman.com\n"));
	assert!(out.contains("0.0.0.0 spiderman.com\n"));
	assert!(out.ends_with("## End of Adbyss Rules ##\n"));

	// Nothing to block, nothing appended.
	let mut none = Settings::default();
	none.source_adaway = false;
	none.source_adbyss = false;
	none.source_stevenblack = false;
	none.source_yoyo = false;
	let (out, n) = none.build(stub.clone(), &fetched(&none), &Vec::new()).unwrap();
	assert_eq!(n, 0);
	assert_eq!(out, stub);
}

#[test]
fn build_with_nothing_to_add_keeps_stub() {
	let mut s = Settings::default();
	s.source_adaway = false;
	s.source_adbyss = false;
	s.source_stevenblack = false;
	s.source_yoyo = false;
	let stub = String::from("127.0.0.1 localhost\n");
	let (text, n) = s.build(stub.clone(), &Vec::new(), &Vec::new()).unwrap();
	assert_eq!(text, stub);
	assert_eq!(n, 0);
}
