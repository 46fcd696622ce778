//! The serial link to the transmitter module.

pub mod port_trait;

use vstd::prelude::*;
use crate::error::{FpvBridgeError, SerialFailure};
use port_trait::{OpenPort, SerialPortIO};

verus! {

/// Baud rate of the link.
pub const CRSF_BAUD_RATE: u32 = 420_000;

/// Devices tried by `open`, in order of preference: USB CDC devices first,
/// then USB-to-serial adapters.
pub const DEFAULT_DEVICE_PATHS: [&'static str; 2] = ["/dev/ttyACM0", "/dev/ttyUSB0"];

/// `tried` lists the paths of `paths`, in order.
pub open spec fn lists_paths(tried: Seq<String>, paths: Seq<&str>) -> bool {
    tried.len() == paths.len() && forall|i: int| 0 <= i < paths.len() ==> #[trigger] tried[i]@
        == paths[i]@
}

/// A connection to the transmitter module over a serial port.
#[derive(Debug)]
pub struct ElrsSerial<P: SerialPortIO> {
    port: P,
    device_path: String,
}

impl<P: SerialPortIO> ElrsSerial<P> {
    /// The path of the device the port was opened on.
    pub closed spec fn path(&self) -> Seq<char> {
        self.device_path@
    }

    /// Wraps a port that is already open.
    pub fn new_with_port(port: P, device_path: String) -> (r: ElrsSerial<P>)
        ensures
            r.path() == device_path@,
    {
        ElrsSerial { port, device_path }
    }

    /// The path of the device the port was opened on.
    pub fn device_path(&self) -> (r: &str)
        ensures
            r@ == self.path(),
    {
        self.device_path.as_str()
    }

    /// Sends a complete frame: writes all of it, then flushes the port.
    /// A failed write is reported without flushing.
    pub fn send_packet(&mut self, packet: &[u8]) -> (r: Result<(), FpvBridgeError>)
        ensures
            final(self).path() == old(self).path(),
            r is Err ==> (r->Err_0 is Serial),
    {
        match self.port.write_all(packet) {
            Ok(()) => {},
            Err(e) => {
                return Err(FpvBridgeError::Serial(SerialFailure::Write(e)));
            },
        }
        match self.port.flush() {
            Ok(()) => Ok(()),
            Err(e) => Err(FpvBridgeError::Serial(SerialFailure::Flush(e))),
        }
    }
}

impl<P: OpenPort> ElrsSerial<P> {
    /// Opens the first of the default device paths that opens.
    pub fn open() -> (r: Result<ElrsSerial<P>, FpvBridgeError>)
        ensures
            r is Ok ==> (r->Ok_0.path() == "/dev/ttyACM0"@ || r->Ok_0.path() == "/dev/ttyUSB0"@),
            r is Err ==> (r->Err_0 is SerialPortNotFound && lists_paths(
                r->Err_0->SerialPortNotFound_0@,
                seq!["/dev/ttyACM0", "/dev/ttyUSB0"],
            )),
    {
        let paths = DEFAULT_DEVICE_PATHS;
        proof {
            assert(paths@ =~= seq!["/dev/ttyACM0", "/dev/ttyUSB0"]);
        }
        Self::open_with_paths(&paths)
    }

    /// Tries the paths in order, as `next_path_step` decides: each path is
    /// tried only after every earlier one failed to open, and the first
    /// port that opens, at the link's baud rate, is kept. When none opens,
    /// or there is none, the error lists every path.
    pub fn open_with_paths(paths: &[&str]) -> (r: Result<ElrsSerial<P>, FpvBridgeError>)
        ensures
            r is Ok ==> exists|i: int| 0 <= i < paths@.len() && r->Ok_0.path() == paths@[i]@,
            r is Err ==> (r->Err_0 is SerialPortNotFound && lists_paths(
                r->Err_0->SerialPortNotFound_0@,
                paths@,
            )),
            paths@.len() == 0 ==> r is Err,
    {
        let mut outcomes: Vec<bool> = Vec::new();
        let mut opened: Option<P> = None;
        loop
            invariant
                outcomes@.len() <= paths@.len(),
                forall|j: int|
                    0 <= j < outcomes@.len() && #[trigger] outcomes@[j] ==> j == outcomes@.len()
                        - 1,
                opened is Some <==> (outcomes@.len() > 0 && outcomes@.last()),
            decreases paths@.len() - outcomes@.len(),
        {
            match next_path_step(paths.len(), outcomes.as_slice()) {
                PathStep::Try(i) => {
                    match P::open_port(paths[i], CRSF_BAUD_RATE) {
                        Ok(port) => {
                            opened = Some(port);
                            outcomes.push(true);
                        },
                        Err(_) => {
                            outcomes.push(false);
                        },
                    }
                },
                PathStep::Keep(i) => {
                    match opened {
                        Some(port) => {
                            let device_path = paths[i].to_owned();
                            return Ok(ElrsSerial { port, device_path });
                        },
                        None => {
                            proof {
                                assert(outcomes@[i as int]);
                            }
                            return Err(FpvBridgeError::SerialPortNotFound(Vec::new()));
                        },
                    }
                },
                PathStep::NotFound => {
                    return Err(FpvBridgeError::SerialPortNotFound(path_list(paths)));
                },
            }
        }
    }
}

/// The paths as owned strings, in order.
fn path_list(paths: &[&str]) -> (tried: Vec<String>)
    ensures
        lists_paths(tried@, paths@),
{
    let mut tried: Vec<String> = Vec::new();
    let mut k: usize = 0;
    while k < paths.len()
        invariant
            k <= paths@.len(),
            tried@.len() == k,
            forall|j: int| 0 <= j < k ==> #[trigger] tried@[j]@ == paths@[j]@,
        decreases paths.len() - k,
    {
        tried.push(paths[k].to_owned());
        k += 1;
    }
    tried
}

/// The next move while looking for a device that opens.
#[derive(Debug, Clone, Copy, PartialEq, Eq, Structural)]
pub enum PathStep {
    /// Try to open the path at this index.
    Try(usize),
    /// The path at this index opened: keep it.
    Keep(usize),
    /// Every path failed to open.
    NotFound,
}

/// Decides the next move from the outcomes of the attempts made so far,
/// `outcomes[j]` being whether path `j` opened: keep the first path that
/// opened, else try the next path in order, else give up.
pub fn next_path_step(path_count: usize, outcomes: &[bool]) -> (r: PathStep)
    requires
        outcomes@.len() <= path_count,
    ensures
        match r {
            PathStep::Keep(i) => i < outcomes@.len() && outcomes@[i as int] && forall|j: int|
                0 <= j < i ==> !#[trigger] outcomes@[j],
            PathStep::Try(i) => i == outcomes@.len() && i < path_count && forall|j: int|
                0 <= j < i ==> !#[trigger] outcomes@[j],
            PathStep::NotFound => outcomes@.len() == path_count && forall|j: int|
                0 <= j < path_count ==> !#[trigger] outcomes@[j],
        },
{
    let mut j: usize = 0;
    while j < outcomes.len()
        invariant
            j <= outcomes@.len(),
            forall|k: int| 0 <= k < j ==> !#[trigger] outcomes@[k],
        decreases outcomes.len() - j,
    {
        if outcomes[j] {
            return PathStep::Keep(j);
        }
        j += 1;
    }
    if outcomes.len() < path_count {
        PathStep::Try(outcomes.len())
    } else {
        PathStep::NotFound
    }
}

} // verus!
