//! Errors.
use vstd::prelude::*;
use crate::sources::Source;

verus! {

/// # Help Text.
pub const HELP: &'static str = "
 .--,       .--,
( (  \\.---./  ) )
 '.__/o   o\\__.'
    (=  ^  =)       \x1b[38;5;199mAdbyss\x1b[0;38;5;69m v0.1.0\x1b[0m
     >  -  <        Block ads, trackers, malware, and
    /       \\       other garbage sites in /etc/hosts.
   //       \\\\
  //|   .   |\\\\
  \"'\\       /'\"_.-~^`'-.
     \\  _  /--'         `
   ___)( )(___

USAGE:
    adbyss [FLAGS] [OPTIONS]

FLAGS:
        --disable      Remove *all* Adbyss entries from the hostfile.
    -h, --help         Prints help information.
    -q, --quiet        Do *not* summarize changes after write.
        --show         Print a sorted blackholable hosts list to STDOUT, one per
                       line.
        --stdout       Print the would-be hostfile to STDOUT instead of writing
                       it to disk.
    -V, --version      Prints version information.
    -y, --yes          Non-interactive mode; answer \"yes\" to all prompts.

OPTIONS:
    -c, --config <path>    Use this configuration instead of /etc/adbyss.yaml.

SOURCES:
    AdAway:       <https://adaway.org/>
    Steven Black: <https://github.com/StevenBlack/hosts>
    Yoyo:         <https://pgl.yoyo.org/adservers/>

Additional global settings are stored in /etc/adbyss.yaml.
";

/// # Version Text.
pub const VERSION: &'static str = "Adbyss v0.1.0";

/// # Error.
#[derive(Debug)]
pub enum AdbyssError {
    /// # Early Abort.
    Aborted,
    /// # Invalid CLI Argument.
    InvalidCli(String),
    /// # No Internet.
    NoInternet,
    /// # No Shitlist.
    NoShitlist,
    /// # Deserialization Error.
    Parse(String),
    /// # Root required.
    Root,
    /// # Read Issue.
    Read(String),
    /// # Unable to Fetch Source.
    SourceFetch(Source),
    /// # Write Issue.
    Write(String),
    /// # Print Help (Not an Error).
    PrintHelp,
    /// # Print Version (Not an Error).
    PrintVersion,
}

/// The message of each error.
pub open spec fn error_message(e: AdbyssError) -> Seq<char> {
    match e {
        AdbyssError::Aborted => "Operation aborted."@,
        AdbyssError::InvalidCli(_) => "Invalid/unknown option."@,
        AdbyssError::NoInternet => "No internet connection available."@,
        AdbyssError::NoShitlist => "There are no domains to blackhole!"@,
        AdbyssError::Parse(_) => "Parsing failed."@,
        AdbyssError::Read(_) => "Unable to read file."@,
        AdbyssError::Root => "Adbyss requires root privileges."@,
        AdbyssError::SourceFetch(_) => "Unable to fetch source."@,
        AdbyssError::Write(_) => "Unable to write file."@,
        AdbyssError::PrintHelp => HELP@,
        AdbyssError::PrintVersion => VERSION@,
    }
}

impl AdbyssError {
    /// # As String Slice.
    pub fn as_str(&self) -> (r: &'static str)
        ensures
            r@ == error_message(*self),
    {
        match self {
            AdbyssError::Aborted => "Operation aborted.",
            AdbyssError::InvalidCli(_) => "Invalid/unknown option.",
            AdbyssError::NoInternet => "No internet connection available.",
            AdbyssError::NoShitlist => "There are no domains to blackhole!",
            AdbyssError::Parse(_) => "Parsing failed.",
            AdbyssError::Read(_) => "Unable to read file.",
            AdbyssError::Root => "Adbyss requires root privileges.",
            AdbyssError::SourceFetch(_) => "Unable to fetch source.",
            AdbyssError::Write(_) => "Unable to write file.",
            AdbyssError::PrintHelp => HELP,
            AdbyssError::PrintVersion => VERSION,
        }
    }

    /// A copy of this error.
    pub fn duplicate(&self) -> (r: AdbyssError)
        ensures
            r == *self,
    {
        match self {
            AdbyssError::Aborted => AdbyssError::Aborted,
            AdbyssError::InvalidCli(s) => AdbyssError::InvalidCli(s.clone()),
            AdbyssError::NoInternet => AdbyssError::NoInternet,
            AdbyssError::NoShitlist => AdbyssError::NoShitlist,
            AdbyssError::Parse(s) => AdbyssError::Parse(s.clone()),
            AdbyssError::Read(s) => AdbyssError::Read(s.clone()),
            AdbyssError::Root => AdbyssError::Root,
            AdbyssError::SourceFetch(s) => AdbyssError::SourceFetch(*s),
            AdbyssError::Write(s) => AdbyssError::Write(s.clone()),
            AdbyssError::PrintHelp => AdbyssError::PrintHelp,
            AdbyssError::PrintVersion => AdbyssError::PrintVersion,
        }
    }
}

} // verus!
