//! The reader's command set: the commands sent over the link and the replies
//! accepted for them, byte for byte as the device expects them.

use vstd::prelude::*;

verus! {

/// Toggles the automatic gain control.
pub const AGC: &'static str = "0109000304F0000000";

pub const AGC_RES: &'static str = "AGC Toggle";

pub const AGC_RES_2: &'static str = AGC;

/// Toggles between amplitude and phase modulation input.
pub const AM: &'static str = "0109000304F1FF0000";

pub const AM_RES: &'static str = "AM PM Toggle";

pub const AM_RES_2: &'static str = AM;

/// Selects the external antenna.
pub const EXT_ANT: &'static str = "01080003042B0000";

pub const EXT_ANT_RES: &'static str = EXT_ANT;

/// Sets the ISO mode.
pub const ISO: &'static str = "010A0003041001210000";

pub const ISO_RES: &'static str = "Register write request.";

/// Sets the half-power RF data rate.
pub const RF_HALF_DATA: &'static str = "010C00030410003101020000";

pub const RF_HALF_DATA_RES: &'static str = "Register write request.";

/// Asks for the tags in the field.
pub const INV_REQ: &'static str = "010B000304142601000000";

/// A tag's UUID and signal strength, in square brackets.
pub const UUID_REGEX: &'static str = r"\[[a-fA-F0-9]{16},[a-fA-F0-9]{2}\]";

/// One block of tag memory after the two-digit marker, in square brackets.
pub const SINGLE_BLK_REGEX: &'static str = r"\[00[a-fA-F0-9]{8}\]";

/// What a single-block request starts with, before the tag's UUID.
pub const SINGLE_BLK_REQ: &'static str = "0113000304182220";

/// What a single-block request ends with, after the block index.
pub const SINGLE_BLK_REQ_END: &'static str = "0000";

/// Where a single-block reply begins.
pub const SINGLE_BLK_START: &'static str = "[";

/// How far behind the start of a single-block reply the payload begins.
pub const SINGLE_BLK_OFFSET: usize = 3;

/// Length of a block's payload, in characters.
pub const SINGLE_BLK_CHARS: usize = 8;

/// Where the UUID's part of an inventory reply begins.
pub const UUID_OPEN: &'static str = "[";

/// How far behind that beginning the UUID itself begins.
pub const UUID_OFFSET: usize = 1;

/// The two characters that the UUID of a tag of this kind ends with on the
/// wire. Nothing is read off them: a reply holds its UUID at a fixed place.
pub const UUID_START: &'static str = "E0";

/// Length of a tag UUID, in characters.
pub const UUID_CHARS: usize = 16;

/// Length of a block index in a command, in characters.
pub const BLOCK_CHARS: usize = 2;

} // verus!
