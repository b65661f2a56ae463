use crate::error::DiscoveryError;
use crate::protocol::{advertises_target, TARGET_SERVICE};
use crate::record::Device;
use vstd::prelude::*;

verus! {

/// Where a discovery pass stands.
#[derive(Clone, Copy, Debug, PartialEq, Eq, Structural)]
pub enum ScanPhase {
    /// Not begun.
    Idle,
    /// Waiting for the adapter to start scanning.
    Starting,
    /// Waiting for the next discovery event.
    Listening,
    /// Waiting for a device session to complete.
    Fetching,
    /// Waiting for the scan to stop.
    Stopping,
    /// Over; the outcome can be taken.
    Finished,
}

/// What the caller is to do next on the radio.
#[derive(Clone, Copy, Debug, PartialEq, Eq, Structural)]
pub enum ScanAction {
    /// Acquire the adapter and start a scan filtered by the target service.
    StartScan,
    /// Wait for the next discovery event, for at most this many milliseconds.
    AwaitEvent(u64),
    /// Run a device session, to completion, on the device of the event just reported.
    FetchDevice,
    /// Stop the scan, best effort: a failure to stop is not reported back.
    StopScan,
    /// The pass is over: take its outcome.
    Finish,
}

/// The phase in which the coordinator waits for the outcome of `a`.
pub open spec fn phase_awaiting(a: ScanAction) -> ScanPhase {
    match a {
        ScanAction::StartScan => ScanPhase::Starting,
        ScanAction::AwaitEvent(_) => ScanPhase::Listening,
        ScanAction::FetchDevice => ScanPhase::Fetching,
        ScanAction::StopScan => ScanPhase::Stopping,
        ScanAction::Finish => ScanPhase::Finished,
    }
}

/// The action at `elapsed` milliseconds after the scan started when nothing
/// else is to be done: wait out what is left of the deadline, or stop once it
/// has passed.
pub open spec fn listen_or_stop(timeout_ms: u64, elapsed_ms: u64) -> ScanAction {
    if elapsed_ms < timeout_ms {
        ScanAction::AwaitEvent((timeout_ms - elapsed_ms) as u64)
    } else {
        ScanAction::StopScan
    }
}

/// Whether `a`, chosen at `elapsed` milliseconds after the scan started, keeps
/// within the deadline: a wait ends exactly at the deadline, and once the
/// deadline has passed neither a wait nor a device session begins.
pub open spec fn honours_deadline(a: ScanAction, timeout_ms: u64, elapsed_ms: u64) -> bool {
    &&& a matches ScanAction::AwaitEvent(w) ==> elapsed_ms < timeout_ms && elapsed_ms + w == timeout_ms
    &&& a == ScanAction::FetchDevice ==> elapsed_ms < timeout_ms
}

/// One bounded discovery pass: a deadline measured from the start of the scan
/// and an optional limit on the number of devices.
///
/// The caller performs each action on the radio and reports its outcome through
/// the method for the current phase, which returns the next action. Devices
/// are processed one at a time, in the order their advertisements qualified,
/// and a failed device session ends the whole pass with its error.
#[derive(Debug)]
pub struct ScanCoordinator {
    pub max_devices: Option<usize>,
    pub timeout_ms: u64,
    pub phase: ScanPhase,
    /// The records collected so far, in the order the devices were accepted.
    pub devices: Vec<Device>,
    /// The error that ended the pass, if one did.
    pub failure: Option<DiscoveryError>,
}

impl ScanCoordinator {
    /// A pass that has not begun.
    pub fn new(max_devices: Option<usize>, timeout_ms: u64) -> (r: ScanCoordinator)
        ensures
            r.max_devices == max_devices,
            r.timeout_ms == timeout_ms,
            r.phase == ScanPhase::Idle,
            r.devices@.len() == 0,
            r.failure is None,
    {
        ScanCoordinator { max_devices, timeout_ms, phase: ScanPhase::Idle, devices: Vec::new(), failure: None }
    }

    /// Begins the pass. A limit of zero devices ends it at once, with no scan.
    pub fn begin(&mut self) -> (r: ScanAction)
        requires
            old(self).phase == ScanPhase::Idle,
        ensures
            r == (if old(self).max_devices == Some(0usize) {
                ScanAction::Finish
            } else {
                ScanAction::StartScan
            }),
            *final(self) == (ScanCoordinator { phase: phase_awaiting(r), ..*old(self) }),
    {
        let r = match self.max_devices {
            Some(0) => ScanAction::Finish,
            _ => ScanAction::StartScan,
        };
        self.phase = if r == ScanAction::Finish {
            ScanPhase::Finished
        } else {
            ScanPhase::Starting
        };
        r
    }

    /// Sets the phase that waits for the outcome of `a`, and returns `a`.
    fn await_outcome(&mut self, a: ScanAction) -> (r: ScanAction)
        ensures
            r == a,
            *final(self) == (ScanCoordinator { phase: phase_awaiting(a), ..*old(self) }),
    {
        self.phase = match a {
            ScanAction::StartScan => ScanPhase::Starting,
            ScanAction::AwaitEvent(_) => ScanPhase::Listening,
            ScanAction::FetchDevice => ScanPhase::Fetching,
            ScanAction::StopScan => ScanPhase::Stopping,
            ScanAction::Finish => ScanPhase::Finished,
        };
        a
    }

    /// Keeps listening at `elapsed_ms`, or stops once the deadline has passed.
    fn listen(&mut self, elapsed_ms: u64) -> (r: ScanAction)
        ensures
            r == listen_or_stop(old(self).timeout_ms, elapsed_ms),
            *final(self) == (ScanCoordinator { phase: phase_awaiting(r), ..*old(self) }),
    {
        let a = if elapsed_ms < self.timeout_ms {
            ScanAction::AwaitEvent(self.timeout_ms - elapsed_ms)
        } else {
            ScanAction::StopScan
        };
        self.await_outcome(a)
    }

    /// Reports whether the adapter was acquired and the scan started; the
    /// deadline is measured from this moment.
    pub fn scan_started(&mut self, outcome: Result<(), DiscoveryError>) -> (r: ScanAction)
        requires
            old(self).phase == ScanPhase::Starting,
        ensures
            outcome is Ok ==> r == listen_or_stop(old(self).timeout_ms, 0)
                && *final(self) == (ScanCoordinator { phase: phase_awaiting(r), ..*old(self) }),
            outcome matches Err(e) ==> r == ScanAction::Finish
                && *final(self) == (ScanCoordinator {
                    phase: ScanPhase::Finished,
                    failure: Some(e),
                    ..*old(self)
                }),
            honours_deadline(r, old(self).timeout_ms, 0),
    {
        match outcome {
            Ok(()) => self.listen(0),
            Err(e) => {
                self.failure = Some(e);
                self.await_outcome(ScanAction::Finish)
            },
        }
    }

    /// Reports a discovery event, `elapsed_ms` after the scan started, for a
    /// device whose own advertised service set is `services`. The device is
    /// accepted only if that set holds the target service, whatever the scan
    /// filter let through.
    pub fn device_discovered(&mut self, elapsed_ms: u64, services: &Vec<u128>) -> (r: ScanAction)
        requires
            old(self).phase == ScanPhase::Listening,
        ensures
            r == (if elapsed_ms >= old(self).timeout_ms {
                ScanAction::StopScan
            } else if services@.contains(TARGET_SERVICE) {
                ScanAction::FetchDevice
            } else {
                ScanAction::AwaitEvent((old(self).timeout_ms - elapsed_ms) as u64)
            }),
            *final(self) == (ScanCoordinator { phase: phase_awaiting(r), ..*old(self) }),
            honours_deadline(r, old(self).timeout_ms, elapsed_ms),
    {
        if elapsed_ms >= self.timeout_ms {
            self.await_outcome(ScanAction::StopScan)
        } else if advertises_target(services) {
            self.await_outcome(ScanAction::FetchDevice)
        } else {
            self.listen(elapsed_ms)
        }
    }

    /// Reports an event that discovers no device, `elapsed_ms` after the scan started.
    pub fn other_event(&mut self, elapsed_ms: u64) -> (r: ScanAction)
        requires
            old(self).phase == ScanPhase::Listening,
        ensures
            r == listen_or_stop(old(self).timeout_ms, elapsed_ms),
            *final(self) == (ScanCoordinator { phase: phase_awaiting(r), ..*old(self) }),
            honours_deadline(r, old(self).timeout_ms, elapsed_ms),
    {
        self.listen(elapsed_ms)
    }

    /// Reports that the wait ended with no event: the deadline expired or the
    /// event stream closed. This ends the pass normally.
    pub fn wait_ended(&mut self) -> (r: ScanAction)
        requires
            old(self).phase == ScanPhase::Listening,
        ensures
            r == ScanAction::StopScan,
            *final(self) == (ScanCoordinator { phase: ScanPhase::Stopping, ..*old(self) }),
    {
        self.await_outcome(ScanAction::StopScan)
    }

    /// Reports the outcome of a device session, `elapsed_ms` after the scan
    /// started. A record is appended to those collected; reaching the device
    /// limit stops the pass before any further wait. A failed session ends the
    /// pass with its error.
    pub fn device_fetched(&mut self, elapsed_ms: u64, result: Result<Device, DiscoveryError>) -> (r: ScanAction)
        requires
            old(self).phase == ScanPhase::Fetching,
        ensures
            result matches Err(e) ==> r == ScanAction::StopScan
                && *final(self) == (ScanCoordinator {
                    phase: ScanPhase::Stopping,
                    failure: Some(e),
                    ..*old(self)
                }),
            result matches Ok(d) ==> {
                &&& final(self).devices@ == old(self).devices@.push(d)
                &&& r == (if old(self).max_devices matches Some(m) && final(self).devices@.len() >= m {
                    ScanAction::StopScan
                } else {
                    listen_or_stop(old(self).timeout_ms, elapsed_ms)
                })
                &&& final(self).phase == phase_awaiting(r)
                &&& final(self).max_devices == old(self).max_devices
                &&& final(self).timeout_ms == old(self).timeout_ms
                &&& final(self).failure == old(self).failure
            },
            honours_deadline(r, old(self).timeout_ms, elapsed_ms),
    {
        match result {
            Ok(d) => {
                self.devices.push(d);
                let full = match self.max_devices {
                    Some(m) => self.devices.len() >= m,
                    None => false,
                };
                if full {
                    self.await_outcome(ScanAction::StopScan)
                } else {
                    self.listen(elapsed_ms)
                }
            },
            Err(e) => {
                self.failure = Some(e);
                self.await_outcome(ScanAction::StopScan)
            },
        }
    }

    /// Reports that the scan was asked to stop, whether or not that succeeded.
    pub fn scan_stopped(&mut self) -> (r: ScanAction)
        requires
            old(self).phase == ScanPhase::Stopping,
        ensures
            r == ScanAction::Finish,
            *final(self) == (ScanCoordinator { phase: ScanPhase::Finished, ..*old(self) }),
    {
        self.await_outcome(ScanAction::Finish)
    }

    /// The outcome of the pass: the records in the order the devices were
    /// accepted, or the error that ended it.
    pub fn outcome(self) -> (r: Result<Vec<Device>, DiscoveryError>)
        ensures
            self.failure matches Some(e) ==> r == Err::<Vec<Device>, DiscoveryError>(e),
            self.failure is None ==> (r matches Ok(v) && v@ == self.devices@),
    {
        match self.failure {
            Some(e) => Err(e),
            None => Ok(self.devices),
        }
    }
}

} // verus!
