//! The serial link to the reader: choice of the port, and bounded retry of
//! one command-and-reply exchange.

use vstd::prelude::*;
use crate::text::{chars_of, contains, find_first};
use self::err::SerialError;

pub mod err;

verus! {

/// How many times one command is tried before the link gives up.
pub const TRIES: u32 = 3;

/// How long the port waits for a reply line, in milliseconds.
pub const SERIAL_TIMEOUT_MS: u64 = 2000;

/// The speed of the link, in bits per second.
pub const BAUD_RATE: u32 = 115200;

/// Number of bits per character.
#[derive(Debug, Clone, Copy, PartialEq, Eq, Structural)]
pub enum DataBits {
    Five,
    Six,
    Seven,
    Eight,
}

/// Flow control of the link.
#[derive(Debug, Clone, Copy, PartialEq, Eq, Structural)]
pub enum FlowControl {
    Off,
    Software,
    Hardware,
}

/// Parity checking of the link.
#[derive(Debug, Clone, Copy, PartialEq, Eq, Structural)]
pub enum Parity {
    Off,
    Odd,
    Even,
}

/// Number of stop bits after each character.
#[derive(Debug, Clone, Copy, PartialEq, Eq, Structural)]
pub enum StopBits {
    One,
    Two,
}

/// The settings a port is opened with.
#[derive(Debug, Clone, Copy, PartialEq, Eq, Structural)]
pub struct PortSettings {
    pub baud_rate: u32,
    pub data_bits: DataBits,
    pub flow_control: FlowControl,
    pub parity: Parity,
    pub stop_bits: StopBits,
    pub timeout_ms: u64,
}

/// One serial port of the host, as the port listing reports it.
#[derive(Debug, Clone, PartialEq, Eq)]
pub struct PortInfo {
    pub port_name: String,
}

/// The settings the reader is driven with: 115200 baud, eight data bits, no
/// flow control, no parity, one stop bit, and the link's reply timeout.
pub open spec fn reader_settings() -> PortSettings {
    PortSettings {
        baud_rate: BAUD_RATE,
        data_bits: DataBits::Eight,
        flow_control: FlowControl::Off,
        parity: Parity::Off,
        stop_bits: StopBits::One,
        timeout_ms: SERIAL_TIMEOUT_MS,
    }
}

/// The settings the reader is driven with.
pub fn link_settings() -> (s: PortSettings)
    ensures
        s == reader_settings(),
{
    PortSettings {
        baud_rate: BAUD_RATE,
        data_bits: DataBits::Eight,
        flow_control: FlowControl::Off,
        parity: Parity::Off,
        stop_bits: StopBits::One,
        timeout_ms: SERIAL_TIMEOUT_MS,
    }
}

/// A port is a USB serial port where its name holds the letters `USB`.
pub open spec fn is_usb(name: Seq<char>) -> bool {
    contains(name, "USB"@)
}

/// Whether the port's name marks it as a USB serial port.
pub fn is_usb_port(port: &PortInfo) -> (b: bool)
    ensures
        b == is_usb(port.port_name@),
{
    let name = chars_of(port.port_name.as_str());
    let tag = chars_of("USB");
    find_first(&name, &tag).is_some()
}

/// What the choice among the listed ports owes.
///
/// The listing must hold exactly one USB serial port, and that one is
/// chosen. An empty listing, a listing without a USB serial port and a
/// listing with several of them are each refused with an error of their own:
/// with several candidates none is picked.
pub open spec fn selects(ports: Seq<PortInfo>, r: Result<usize, SerialError>) -> bool {
    match r {
        Ok(i) => {
            &&& i < ports.len()
            &&& is_usb(ports[i as int].port_name@)
            &&& forall|j: int|
                0 <= j < ports.len() && j != i ==> !is_usb(#[trigger] ports[j].port_name@)
        },
        Err(SerialError::NoSerialPortsFound) => ports.len() == 0,
        Err(SerialError::UsbSerialNotFound) => {
            &&& ports.len() > 0
            &&& forall|j: int| 0 <= j < ports.len() ==> !is_usb(#[trigger] ports[j].port_name@)
        },
        Err(SerialError::MultipleSerialPorts) => exists|j: int, k: int|
            0 <= j < k < ports.len() && is_usb(#[trigger] ports[j].port_name@) && is_usb(
                #[trigger] ports[k].port_name@,
            ),
        Err(_) => false,
    }
}

/// The port the reader is attached to, among those the host lists: the one
/// USB serial port of the listing.
pub fn select_port(ports: &Vec<PortInfo>) -> (r: Result<usize, SerialError>)
    ensures
        selects(ports@, r),
{
    if ports.len() == 0 {
        return Err(SerialError::NoSerialPortsFound);
    }
    let mut found: Option<usize> = None;
    let mut i: usize = 0;
    while i < ports.len()
        invariant
            i <= ports.len(),
            match found {
                Some(f) => {
                    &&& f < i
                    &&& is_usb(ports[f as int].port_name@)
                    &&& forall|j: int|
                        0 <= j < i && j != f ==> !is_usb(#[trigger] ports[j].port_name@)
                },
                None => forall|j: int| 0 <= j < i ==> !is_usb(#[trigger] ports[j].port_name@),
            },
        decreases ports.len() - i,
    {
        if is_usb_port(&ports[i]) {
            if found.is_some() {
                return Err(SerialError::MultipleSerialPorts);
            }
            found = Some(i);
        }
        i += 1;
    }
    match found {
        Some(f) => Ok(f),
        None => Err(SerialError::UsbSerialNotFound),
    }
}

/// The port driver under the link: listing and opening ports, and the raw
/// write and read of one line. An implementation does the input and output;
/// nothing is promised of what it returns.
pub trait SerialCrateTraits: Send + Sync {
    /// An opened port.
    type Port: Send + Sync;

    /// The serial ports of the host.
    fn get_ports(&self) -> Result<Vec<PortInfo>, SerialError>;

    /// Opens the port at `path` with `settings`.
    fn open(&self, path: &str, settings: &PortSettings) -> Result<Self::Port, SerialError>;

    /// Writes `msg` to `device` and reads one line of reply.
    fn send(&self, msg: &str, device: &mut Self::Port) -> Result<String, SerialError>;

    /// Reads one line from `device`.
    fn read(&self, device: &mut Self::Port) -> Result<String, SerialError>;
}

/// A link that takes a command and gives the reader's reply to it.
pub trait RFIDSerialTraits: Send + Sync {
    /// Sends `msg` and returns the reply text.
    fn send_recv(&mut self, msg: &str) -> Result<String, SerialError>;
}

/// One command on the link and what came back for it.
pub struct Exchange {
    pub cmd: Seq<char>,
    pub reply: Result<String, SerialError>,
}

/// What `send_recv` owes for the tries `made` of the command `cmd`.
///
/// Between one and `TRIES` tries were made, all of `cmd`; all but the last
/// failed. Where the last one brought a reply, that reply is the result.
/// Where it failed too, all `TRIES` tries were used, and the result is the
/// one error that stands for the exhaustion.
pub open spec fn retried(
    made: Seq<Exchange>,
    cmd: Seq<char>,
    r: Result<String, SerialError>,
) -> bool {
    &&& 1 <= made.len() <= TRIES
    &&& forall|i: int| 0 <= i < made.len() ==> (#[trigger] made[i]).cmd == cmd
    &&& forall|i: int| 0 <= i < made.len() - 1 ==> (#[trigger] made[i]).reply is Err
    &&& match made.last().reply {
        Ok(_) => r == made.last().reply,
        Err(_) => made.len() == TRIES && r == Err::<String, SerialError>(
            SerialError::NoReplyAfterMultipleTries,
        ),
    }
}

/// The link to the reader over one opened port, with bounded retry.
pub struct RFIDSerial<L: SerialCrateTraits> {
    port: L::Port,
    lib: L,
    listing: Ghost<Seq<PortInfo>>,
    path: Ghost<Seq<char>>,
    settings: Ghost<PortSettings>,
    attempts: Ghost<Seq<Exchange>>,
}

impl<L: SerialCrateTraits> RFIDSerial<L> {
    /// Every try made on the port since the link was opened, oldest first.
    pub closed spec fn attempts(&self) -> Seq<Exchange> {
        self.attempts@
    }

    /// The ports that the driver listed when the link was opened.
    pub closed spec fn listing(&self) -> Seq<PortInfo> {
        self.listing@
    }

    /// The path that was handed to the driver to open the port.
    pub closed spec fn path(&self) -> Seq<char> {
        self.path@
    }

    /// The settings that were handed to the driver to open the port.
    pub closed spec fn settings(&self) -> PortSettings {
        self.settings@
    }

    /// Opens the link: lists the ports, picks the one USB serial port among
    /// them and opens it with the reader's settings.
    ///
    /// A failure of the listing or of the opening is returned as the driver
    /// gave it; a listing that `select_port` refuses gives that error. A
    /// link that opens was opened on the one USB serial port of the listing,
    /// with the reader's settings, and has made no try yet.
    pub fn new(lib: L) -> (r: Result<RFIDSerial<L>, SerialError>)
        ensures
            r matches Ok(link) ==> {
                &&& exists|i: usize|
                    selects(link.listing(), Ok(i)) && link.path()
                        == link.listing()[i as int].port_name@
                &&& link.settings() == reader_settings()
                &&& link.attempts() == Seq::<Exchange>::empty()
            },
    {
        let ports = match lib.get_ports() {
            Ok(ports) => ports,
            Err(e) => {
                return Err(e);
            },
        };
        let chosen = match select_port(&ports) {
            Ok(i) => i,
            Err(e) => {
                return Err(e);
            },
        };
        let settings = link_settings();
        match lib.open(ports[chosen].port_name.as_str(), &settings) {
            Ok(port) => {
                let link = RFIDSerial {
                    port,
                    lib,
                    listing: Ghost(ports@),
                    path: Ghost(ports[chosen as int].port_name@),
                    settings: Ghost(settings),
                    attempts: Ghost(Seq::empty()),
                };
                assert(selects(link.listing(), Ok(chosen)) && link.path()
                    == link.listing()[chosen as int].port_name@);
                Ok(link)
            },
            Err(e) => Err(e),
        }
    }

    /// One try: writes `msg` to the port and reads one line of reply.
    pub fn send(&mut self, msg: &str) -> (r: Result<String, SerialError>)
        ensures
            final(self).attempts() == old(self).attempts().push(Exchange { cmd: msg@, reply: r }),
    {
        let r = self.lib.send(msg, &mut self.port);
        self.attempts = Ghost(self.attempts@.push(Exchange { cmd: msg@, reply: r }));
        r
    }
}

impl<L: SerialCrateTraits> RFIDSerialTraits for RFIDSerial<L> {
    /// Tries `cmd` until a reply comes, `TRIES` times at most. The errors of
    /// the single tries are dropped.
    fn send_recv(&mut self, cmd: &str) -> (r: Result<String, SerialError>)
        ensures
            old(self).attempts().is_prefix_of(final(self).attempts()),
            retried(final(self).attempts().skip(old(self).attempts().len() as int), cmd@, r),
    {
        let ghost before = self.attempts();
        let mut attempts: u32 = TRIES;
        while attempts > 0
            invariant
                attempts <= TRIES,
                before == old(self).attempts(),
                before.is_prefix_of(self.attempts()),
                self.attempts().len() == before.len() + (TRIES - attempts),
                forall|i: int|
                    before.len() <= i < self.attempts().len() ==> {
                        &&& (#[trigger] self.attempts()[i]).cmd == cmd@
                        &&& self.attempts()[i].reply is Err
                    },
            decreases attempts,
        {
            let ghost so_far = self.attempts();
            match self.send(cmd) {
                Ok(recv) => {
                    proof {
                        let made = self.attempts().skip(before.len() as int);
                        assert(self.attempts() == so_far.push(
                            Exchange { cmd: cmd@, reply: Ok(recv) },
                        ));
                        assert(made.len() == TRIES - attempts + 1);
                        assert(made.last() == self.attempts()[self.attempts().len() - 1]);
                        assert forall|i: int| 0 <= i < made.len() implies (#[trigger] made[i]).cmd
                            == cmd@ by {
                            assert(made[i] == self.attempts()[before.len() + i]);
                        }
                        assert forall|i: int| 0 <= i < made.len() - 1 implies (#[trigger] made[i])
                            .reply is Err by {
                            assert(made[i] == self.attempts()[before.len() + i]);
                            assert(self.attempts()[before.len() + i] == so_far[before.len() + i]);
                        }
                    }
                    return Ok(recv);
                },
                Err(_) => {
                    attempts -= 1;
                },
            }
        }
        proof {
            let made = self.attempts().skip(before.len() as int);
            assert(made.len() == TRIES);
            assert forall|i: int| 0 <= i < made.len() implies (#[trigger] made[i]).cmd == cmd@
                && made[i].reply is Err by {
                assert(made[i] == self.attempts()[before.len() + i]);
            }
        }
        Err(SerialError::NoReplyAfterMultipleTries)
    }
}

} // verus!
