//! Handles to the adapters that the driver's manager enumerates.

use crate::scan::{claim, ScanAction, ScanController};
use vstd::prelude::*;

verus! {

/// A handle to one local adapter: the driver's reference to it, of whatever
/// type the driver gives, and the scan controller that belongs to the handle.
#[derive(Debug)]
pub struct AdapterHandle<A> {
    adapter: A,
    scan: ScanController,
}

impl<A> AdapterHandle<A> {
    /// The driver's reference to the adapter.
    pub closed spec fn driver(&self) -> A {
        self.adapter
    }

    /// Whether a scan was claimed on this handle.
    pub closed spec fn scanning(&self) -> bool {
        self.scan.scanning()
    }

    /// The handle to `adapter`, on which no scan was claimed.
    pub fn new(adapter: A) -> (handle: Self)
        ensures
            handle.driver() == adapter,
            !handle.scanning(),
    {
        AdapterHandle { adapter, scan: ScanController::new() }
    }

    /// The driver's reference to the adapter.
    pub fn adapter(&self) -> (adapter: &A)
        ensures
            *adapter == self.driver(),
    {
        &self.adapter
    }

    /// Whether a scan was claimed on this handle.
    pub fn is_scanning(&self) -> (scanning: bool)
        ensures
            scanning == self.scanning(),
    {
        self.scan.is_scanning()
    }

    /// Claims the scan of this adapter: the first call is told to start the
    /// driver's scan with the filter that matches everything, every later
    /// call that a scan was claimed.
    pub fn start_scan(&mut self) -> (action: ScanAction)
        ensures
            final(self).driver() == old(self).driver(),
            (final(self).scanning(), action is StartDriverScan) == claim(old(self).scanning()),
            action matches ScanAction::StartDriverScan(filter) ==> filter@ == Seq::<u128>::empty(),
    {
        self.scan.start_scan()
    }
}

/// The handles stand for the adapters, one for each and in their order, and
/// no scan was claimed on any.
pub open spec fn wraps<A>(handles: Seq<AdapterHandle<A>>, adapters: Seq<A>) -> bool {
    &&& handles.len() == adapters.len()
    &&& forall|i: int|
        0 <= i < handles.len() ==> (#[trigger] handles[i]).driver() == adapters[i]
            && !handles[i].scanning()
}

/// Wraps the adapters that the driver's manager enumerated: one handle for
/// each, in the driver's order, none of them scanning.
pub fn adapter_handles<A>(adapters: Vec<A>) -> (handles: Vec<AdapterHandle<A>>)
    ensures
        wraps(handles@, adapters@),
{
    let mut handles: Vec<AdapterHandle<A>> = Vec::new();
    for adapter in it: adapters
        invariant
            handles@.len() == it.index(),
            forall|i: int|
                0 <= i < handles@.len() ==> (#[trigger] handles@[i]).driver() == it.seq()[i]
                    && !handles@[i].scanning(),
    {
        handles.push(AdapterHandle::new(adapter));
    }
    handles
}

} // verus!
