//! Adbyss: blocklist management around the Public Suffix List.

pub mod error;
pub mod hosts;
pub mod outside;
pub mod ping;
pub mod psl;
pub mod puny;
pub mod puny_laws;
pub mod sort;
pub mod settings;
pub mod sources;
pub mod psl_data;
pub mod text;
pub mod unwrite;
pub mod write;

use vstd::prelude::*;

verus! {

/// # Flag: All Sources.
pub const FLAG_ALL: u8 = 0b0000_1111;

/// # Flag: `AdAway`.
pub const FLAG_ADAWAY: u8 = 0b0000_0001;

/// # Flag: `Adbyss`.
pub const FLAG_ADBYSS: u8 = 0b0000_0010;

/// # Flag: `Steven Black`.
pub const FLAG_STEVENBLACK: u8 = 0b0000_0100;

/// # Flag: `Yoyo`.
pub const FLAG_YOYO: u8 = 0b0000_1000;

/// # Flag: Backup Before Writing.
pub const FLAG_BACKUP: u8 = 0b0001_0000;

/// # Flag: Compact Output.
pub const FLAG_COMPACT: u8 = 0b0010_0000;

/// # Flag: Non-Interactive Mode.
pub const FLAG_Y: u8 = 0b0100_0000;

/// # Maximum Host Line.
///
/// The true limit is `256`; this leaves a little room for `0.0.0.0` and
/// whitespace.
pub const MAX_LINE: usize = 245;

} // verus!
