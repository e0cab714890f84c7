//! The scan controller of an adapter: of all the calls that ask for a scan,
//! one starts it.

use crate::bridge::{bridge, OperationFailed};
use vstd::prelude::*;

verus! {

/// The filter handed to the driver with the command that starts a scan: the
/// service UUIDs to look for, or none to match every peripheral.
#[derive(Debug)]
pub struct ScanFilter {
    services: Vec<u128>,
}

impl View for ScanFilter {
    type V = Seq<u128>;

    closed spec fn view(&self) -> Seq<u128> {
        self.services@
    }
}

impl ScanFilter {
    /// The filter that matches every peripheral.
    pub fn match_all() -> (filter: Self)
        ensures
            filter@ == Seq::<u128>::empty(),
    {
        ScanFilter { services: Vec::new() }
    }

    /// The service UUIDs of the filter.
    pub fn services(&self) -> (services: &Vec<u128>)
        ensures
            services@ == self@,
    {
        &self.services
    }
}

/// What a call to `start_scan` has to do next.
#[derive(Debug)]
pub enum ScanAction {
    /// The caller is the one that starts the scan: it sends the driver the
    /// start command with this filter, and its call ends as the driver says.
    StartDriverScan(ScanFilter),
    /// A scan was claimed before: the call ends in success and the driver is
    /// not contacted.
    AlreadyScanning,
}

/// One call that finds the flag at `scanning`: the flag afterwards, and
/// whether the call sends the start command to the driver. The flag is set
/// whatever it was, and the command is sent by the call that found it cleared.
pub open spec fn claim(scanning: bool) -> (bool, bool) {
    (true, !scanning)
}

/// How many start commands reach the driver over `calls` calls, one after the
/// other, the first of which finds the flag at `scanning`.
pub open spec fn start_commands(scanning: bool, calls: nat) -> nat
    decreases calls,
{
    if calls == 0 {
        0
    } else {
        let (next, command) = claim(scanning);
        let later = start_commands(next, (calls - 1) as nat);
        if command {
            1 + later
        } else {
            later
        }
    }
}

/// The flag after `calls` calls, one after the other, the first of which
/// finds it at `scanning`.
pub open spec fn flag_after(scanning: bool, calls: nat) -> bool
    decreases calls,
{
    if calls == 0 {
        scanning
    } else {
        flag_after(claim(scanning).0, (calls - 1) as nat)
    }
}

/// The flag changes at most once: the first call sets it, and no call clears
/// it.
pub proof fn lemma_flag_stays_set(scanning: bool, calls: nat)
    ensures
        flag_after(scanning, calls) == (scanning || calls > 0),
    decreases calls,
{
    if calls > 0 {
        lemma_flag_stays_set(true, (calls - 1) as nat);
    }
}

/// However many calls are made on one controller, at most one start command
/// reaches the driver: exactly one where the controller was idle and a call
/// was made, none otherwise.
pub proof fn lemma_one_start_command(scanning: bool, calls: nat)
    ensures
        start_commands(scanning, calls) <= 1,
        start_commands(scanning, calls) == 1 <==> (!scanning && calls > 0),
    decreases calls,
{
    if calls > 0 {
        lemma_one_start_command(true, (calls - 1) as nat);
    }
}

/// The flag of one adapter that says whether a scan was claimed. It starts
/// cleared and, once set, stays set.
///
/// `start_scan` takes the controller by exclusive reference, so that testing
/// the flag and setting it are one step to every other caller: callers that
/// share a controller reach it through a lock, and their calls form a sequence.
#[derive(Debug)]
pub struct ScanController {
    is_scanning: bool,
}

impl ScanController {
    /// Whether a scan was claimed.
    pub closed spec fn scanning(&self) -> bool {
        self.is_scanning
    }

    /// A controller on which no scan was claimed.
    pub fn new() -> (controller: Self)
        ensures
            !controller.scanning(),
    {
        ScanController { is_scanning: false }
    }

    /// Whether a scan was claimed.
    pub fn is_scanning(&self) -> (scanning: bool)
        ensures
            scanning == self.scanning(),
    {
        self.is_scanning
    }

    /// Claims the scan. The first call on a controller is told to start the
    /// driver's scan, with the filter that matches everything; every later
    /// call is told that a scan was claimed.
    pub fn start_scan(&mut self) -> (action: ScanAction)
        ensures
            (final(self).scanning(), action is StartDriverScan) == claim(old(self).scanning()),
            action matches ScanAction::StartDriverScan(filter) ==> filter@ == Seq::<u128>::empty(),
    {
        if self.is_scanning {
            ScanAction::AlreadyScanning
        } else {
            self.is_scanning = true;
            ScanAction::StartDriverScan(ScanFilter::match_all())
        }
    }
}

/// What the driver answered to a call, as the call saw it: the answer to the
/// start command where the call sent it, nothing where it did not.
pub open spec fn answer_seen(scanning: bool, answer: Result<(), Seq<char>>) -> Option<
    Result<(), Seq<char>>,
> {
    if claim(scanning).1 {
        Some(answer)
    } else {
        None
    }
}

/// How a call ends: as the driver answered where the start command was sent,
/// and in success where it was not.
pub open spec fn call_result(seen: Option<Result<(), Seq<char>>>) -> Result<(), Seq<char>> {
    match seen {
        Some(Err(message)) => Err(message),
        _ => Ok(()),
    }
}

/// Every call ends in success as long as the driver accepts the start
/// command; and a call that finds the scan claimed ends in success whatever
/// the driver would have answered.
pub proof fn lemma_calls_succeed(scanning: bool, answer: Result<(), Seq<char>>)
    ensures
        answer is Ok ==> call_result(answer_seen(scanning, answer)) is Ok,
        scanning ==> call_result(answer_seen(scanning, answer)) is Ok,
        call_result(answer_seen(scanning, answer)) is Err ==> !scanning && answer is Err,
{
}

/// The view of what a call saw of the driver.
pub open spec fn seen_view(seen: Option<Result<(), String>>) -> Option<Result<(), Seq<char>>> {
    match seen {
        Some(Ok(_)) => Some(Ok(())),
        Some(Err(message)) => Some(Err(message@)),
        None => None,
    }
}

/// Ends a call to `start_scan`. `seen` is the driver's answer to the start
/// command where the call sent it, and nothing where the call found the scan
/// claimed: such a call ends in success, the other as the driver answered.
pub fn scan_outcome(seen: Option<Result<(), String>>) -> (result: Result<(), OperationFailed>)
    ensures
        call_result(seen_view(seen)) matches Ok(_) ==> result is Ok,
        call_result(seen_view(seen)) matches Err(message) ==> (result matches Err(failure)
            && failure@ == message),
{
    match seen {
        Some(answer) => bridge(answer),
        None => Ok(()),
    }
}

} // verus!
