use adbyss::psl::Domain;
use std::ops::Deref;

/// # Handle TLD Assertions.
fn t_tld_assert(a: &str, b: Option<&str>) {
	if b.is_none() {
		let res = Domain::parse(a);
		assert!(res.is_none(), "Unexpectedly parsed: {:?}\n{:?}\n", a, res);
	}
	else if let Some(dom) = Domain::parse(a) {
		assert_eq!(dom.tld(), b.unwrap(), "Failed parsing: {:?}", dom);
	}
	else {
		panic!("Failed parsing: {:?}", a);
	}
}

#[test]
fn t_tld() {
	// Mixed case.
	t_tld_assert("COM", None);
	t_tld_assert("example.COM", Some("example.com"));
	t_tld_assert("WwW.example.COM", Some("example.com"));
	// Leading dot.
	t_tld_assert(".com", None);
	t_tld_assert(".example", None);
	t_tld_assert(".example.com", Some("example.com"));
	t_tld_assert(".example.example", None);
	// Unlisted TLD.
	t_tld_assert("example", None);
	t_tld_assert("example.example", None);
	t_tld_assert("b.example.example", None);
	t_tld_assert("a.b.example.example", None);
	// TLD with only 1 rule.
	t_tld_assert("biz", None);
	t_tld_assert("domain.biz", Some("domain.biz"));
	t_tld_assert("b.domain.biz", Some("domain.biz"));
	t_tld_assert("a.b.domain.biz", Some("domain.biz"));
	// TLD with some 2-level rules.
	t_tld_assert("com", None);
	t_tld_assert("example.com", Some("example.com"));
	t_tld_assert("b.example.com", Some("example.com"));
	t_tld_assert("a.b.example.com", Some("example.com"));
	t_tld_assert("uk.com", None);
	t_tld_assert("example.uk.com", Some("example.uk.com"));
	t_tld_assert("b.example.uk.com", Some("example.uk.com"));
	t_tld_assert("a.b.example.uk.com", Some("example.uk.com"));
	t_tld_assert("test.ac", Some("test.ac"));
	// TLD with only 1 (wildcard) rule.
	t_tld_assert("mm", None);
	t_tld_assert("c.mm", None);
	t_tld_assert("b.c.mm", Some("b.c.mm"));
	t_tld_assert("a.b.c.mm", Some("b.c.mm"));
	// More complex TLD.
	t_tld_assert("jp", None);
	t_tld_assert("test.jp", Some("test.jp"));
	t_tld_assert("www.test.jp", Some("test.jp"));
	t_tld_assert("ac.jp", None);
	t_tld_assert("test.ac.jp", Some("test.ac.jp"));
	t_tld_assert("www.test.ac.jp", Some("test.ac.jp"));
	t_tld_assert("kyoto.jp", None);
	t_tld_assert("test.kyoto.jp", Some("test.kyoto.jp"));
	t_tld_assert("ide.kyoto.jp", None);
	t_tld_assert("b.ide.kyoto.jp", Some("b.ide.kyoto.jp"));
	t_tld_assert("a.b.ide.kyoto.jp", Some("b.ide.kyoto.jp"));
	t_tld_assert("c.kobe.jp", None);
	t_tld_assert("b.c.kobe.jp", Some("b.c.kobe.jp"));
	t_tld_assert("a.b.c.kobe.jp", Some("b.c.kobe.jp"));
	t_tld_assert("city.kobe.jp", Some("city.kobe.jp"));
	t_tld_assert("www.city.kobe.jp", Some("city.kobe.jp"));
	// TLD with a wildcard rule and exceptions.
	t_tld_assert("ck", None);
	t_tld_assert("test.ck", None);
	t_tld_assert("b.test.ck", Some("b.test.ck"));
	t_tld_assert("a.b.test.ck", Some("b.test.ck"));
	t_tld_assert("www.ck", Some("www.ck"));
	t_tld_assert("www.www.ck", Some("www.ck"));
	// US K12.
	t_tld_assert("us", None);
	t_tld_assert("test.us", Some("test.us"));
	t_tld_assert("www.test.us", Some("test.us"));
	t_tld_assert("ak.us", None);
	t_tld_assert("test.ak.us", Some("test.ak.us"));
	t_tld_assert("www.test.ak.us", Some("test.ak.us"));
	t_tld_assert("k12.ak.us", None);
	t_tld_assert("test.k12.ak.us", Some("test.k12.ak.us"));
	t_tld_assert("www.test.k12.ak.us", Some("test.k12.ak.us"));
	// IDN labels.
	t_tld_assert("食狮.com.cn", Some("xn--85x722f.com.cn"));
	t_tld_assert("食狮.公司.cn", Some("xn--85x722f.xn--55qx5d.cn"));
	t_tld_assert("www.食狮.公司.cn", Some("xn--85x722f.xn--55qx5d.cn"));
	t_tld_assert("shishi.公司.cn", Some("shishi.xn--55qx5d.cn"));
	t_tld_assert("公司.cn", None);
	t_tld_assert("食狮.中国", Some("xn--85x722f.xn--fiqs8s"));
	t_tld_assert("www.食狮.中国", Some("xn--85x722f.xn--fiqs8s"));
	t_tld_assert("shishi.中国", Some("shishi.xn--fiqs8s"));
	t_tld_assert("中国", None);
}

#[test]
fn t_chunks() {
	let mut dom = Domain::parse("abc.www.食狮.中国").unwrap();
	assert_eq!(dom.subdomain(), Some("abc.www"));
	assert_eq!(dom.root(), "xn--85x722f");
	assert_eq!(dom.suffix(), "xn--fiqs8s");
	assert_eq!(dom.tld(), "xn--85x722f.xn--fiqs8s");
	assert_eq!(dom.deref(), "abc.www.xn--85x722f.xn--fiqs8s");
	assert_eq!(dom.host(), "abc.www.xn--85x722f.xn--fiqs8s");

	dom = Domain::parse("blobfolio.com").unwrap();
	assert_eq!(dom.subdomain(), None);
	assert_eq!(dom.root(), "blobfolio");
	assert_eq!(dom.suffix(), "com");
	assert_eq!(dom.tld(), "blobfolio.com");
	assert_eq!(dom.deref(), "blobfolio.com");
	assert_eq!(dom.host(), "blobfolio.com");

	dom = Domain::parse("www.blobfolio.com").unwrap();
	assert_eq!(dom.subdomain(), Some("www"));
	assert_eq!(dom.root(), "blobfolio");
	assert_eq!(dom.suffix(), "com");
	assert_eq!(dom.tld(), "blobfolio.com");
	assert_eq!(dom.deref(), "www.blobfolio.com");
	assert_eq!(dom.host(), "www.blobfolio.com");

	assert!(dom.strip_www());
	assert_eq!(dom.subdomain(), None);
	assert_eq!(dom.root(), "blobfolio");
	assert_eq!(dom.suffix(), "com");
	assert_eq!(dom.tld(), "blobfolio.com");
	assert_eq!(dom.deref(), "blobfolio.com");
	assert_eq!(dom.host(), "blobfolio.com");
}

/// # Sanitize Domain.
fn sanitize_domain(dom: &str) -> Option<String> {
	Domain::parse(dom).map(Domain::take)
}

#[test]
fn t_sanitize_domain() {
	for (a, b) in [
		("Blobfolio.com", Some(String::from("blobfolio.com"))),
		("www.Blobfolio.com", Some(String::from("www.blobfolio.com"))),
		(" www.Blobfolio.com", Some(String::from("www.blobfolio.com"))),
		("http://www.Blobfolio.com", None),
		("hello", None),
		("localhost", None),
		("☺.com", Some(String::from("xn--74h.com"))),
		("www.☺.com", Some(String::from("www.xn--74h.com"))),
		("www.xn--74h.com", Some(String::from("www.xn--74h.com"))),
	].iter() {
		assert_eq!(sanitize_domain(a), *b);
	}
}

#[test]
fn domain_compares_with_text() {
	let d = Domain::parse("www.Blobfolio.com").unwrap();
	assert!(d.eq_str("www.blobfolio.com"));
	assert!(d.eq_str(&String::from("www.blobfolio.com")));
	assert!(!d.eq_str("blobfolio.com"));
	assert!(!d.eq_str("www.blobfolio.co"));
	assert_eq!(d.host(), d.deref());
}

#[test]
fn domain_from_ascii_host() {
	let table = adbyss::psl::SuffixTable::builtin();
	let d = Domain::from_ascii(&table, String::from("a.b.example.co.uk")).unwrap();
	assert_eq!(d.root(), "example");
	assert_eq!(d.suffix(), "co.uk");
	assert_eq!(d.subdomain(), Some("a.b"));
	assert!(Domain::from_ascii(&table, String::from("co.uk")).is_none());
	assert!(Domain::from_ascii(&table, String::from("example.notasuffix")).is_none());
}

#[test]
fn domain_parts_have_shape() {
	for s in ["a.b.example.com", "example.com", "x.y.z.kyoto.jp", "☺.com"] {
		let d = Domain::parse(s).unwrap();
		let h = d.host();
		assert!(!h.is_empty() && !h.starts_with('.') && !h.ends_with('.'));
		assert!(!d.root().is_empty() && !d.root().contains('.'));
		assert!(d.tld().starts_with(d.root()));
		assert!(!d.suffix().is_empty() && h.ends_with(&format!(".{}", d.suffix())));
		match d.subdomain() {
			Some(x) => assert_eq!(h, format!("{}.{}", x, d.tld())),
			None => assert_eq!(h, d.tld()),
		}
		let table = adbyss::psl::SuffixTable::builtin();
		assert!(Domain::from_ascii(&table, d.suffix().to_owned()).is_none());
		let again = Domain::from_ascii(&table, h.to_owned()).unwrap();
		assert_eq!((again.root(), again.suffix()), (d.root(), d.suffix()));
		assert_eq!(Domain::parse(h).map(Domain::take), Some(h.to_owned()));
	}
}
