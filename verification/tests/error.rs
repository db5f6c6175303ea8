use adbyss::ping::{ping_step, PingStep, PING_TRIES};
use adbyss::error::{AdbyssError, HELP, VERSION};
use adbyss::sources::Source;

#[test]
fn messages() {
	assert_eq!(AdbyssError::Aborted.as_str(), "Operation aborted.");
	assert_eq!(AdbyssError::InvalidCli(String::from("-x")).as_str(), "Invalid/unknown option.");
	assert_eq!(AdbyssError::NoInternet.as_str(), "No internet connection available.");
	assert_eq!(AdbyssError::NoShitlist.as_str(), "There are no domains to blackhole!");
	assert_eq!(AdbyssError::Parse(String::new()).as_str(), "Parsing failed.");
	assert_eq!(AdbyssError::Read(String::new()).as_str(), "Unable to read file.");
	assert_eq!(AdbyssError::Root.as_str(), "Adbyss requires root privileges.");
	assert_eq!(AdbyssError::SourceFetch(Source::Yoyo).as_str(), "Unable to fetch source.");
	assert_eq!(AdbyssError::Write(String::new()).as_str(), "Unable to write file.");
	assert_eq!(AdbyssError::PrintHelp.as_str(), HELP);
	assert_eq!(AdbyssError::PrintVersion.as_str(), VERSION);
	assert!(matches!(AdbyssError::Read(String::from("x")).duplicate(), AdbyssError::Read(s) if s == "x"));
}

#[test]
fn ping_tries_ten_times() {
	assert_eq!(ping_step(0, true), PingStep::Online);
	assert_eq!(ping_step(0, false), PingStep::Retry(1));
	assert_eq!(ping_step(8, false), PingStep::Retry(9));
	assert_eq!(ping_step(PING_TRIES - 1, false), PingStep::Offline);
	assert_eq!(ping_step(9, true), PingStep::Online);
}
