//! Failures of the serial link.

use vstd::prelude::*;
use vstd::string::*;

verus! {

/// What can go wrong between the host and the reader on the serial link.
///
/// The two last variants carry the message of a failure that the operating
/// system or the port driver reported.
#[derive(Debug, Clone, PartialEq, Eq)]
pub enum SerialError {
    NoSerialPortsFound,
    UsbSerialNotFound,
    MultipleSerialPorts,
    NoReplyAfterMultipleTries,
    IoError(String),
    SerialError(String),
}

impl SerialError {
    /// The text shown to a person for this failure.
    pub open spec fn message(&self) -> Seq<char> {
        match self {
            SerialError::NoSerialPortsFound =>
                "No serial ports found. Please ensure device is connected"@,
            SerialError::UsbSerialNotFound =>
                "No USB serial port found. Please ensure device is connected"@,
            SerialError::MultipleSerialPorts => "More than one USB serial device found"@,
            SerialError::NoReplyAfterMultipleTries =>
                "Serial device did not respond to read request after multiple tries"@,
            SerialError::IoError(e) => e@,
            SerialError::SerialError(e) => e@,
        }
    }

    /// The text shown to a person for this failure.
    pub fn to_string(&self) -> (s: String)
        ensures
            s@ == self.message(),
    {
        match self {
            SerialError::NoSerialPortsFound => String::from_str(
                "No serial ports found. Please ensure device is connected",
            ),
            SerialError::UsbSerialNotFound => String::from_str(
                "No USB serial port found. Please ensure device is connected",
            ),
            SerialError::MultipleSerialPorts => String::from_str(
                "More than one USB serial device found",
            ),
            SerialError::NoReplyAfterMultipleTries => String::from_str(
                "Serial device did not respond to read request after multiple tries",
            ),
            SerialError::IoError(e) => e.clone(),
            SerialError::SerialError(e) => e.clone(),
        }
    }
}

} // verus!
