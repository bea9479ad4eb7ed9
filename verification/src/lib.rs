//! Protocol engine and single-device arbitration for a serial proximity-tag
//! reader: command encoding, reply validation, tag UUID and block extraction,
//! bounded retry of the link, and the pacing rules of the streaming read.

pub mod reader;
pub mod rfid;
pub mod serial;
pub mod text;
pub mod utils;

