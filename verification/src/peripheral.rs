//! Handles to the peripherals that an adapter knows, and what a peripheral
//! advertises.

use crate::text::{lemma_uuid_text_names_one_uuid, uuid_string, uuid_text};
use vstd::prelude::*;

verus! {

/// A handle to one remote device: the driver's reference to it, of whatever
/// type the driver gives. The state of the connection lives in the driver.
#[derive(Debug)]
pub struct PeripheralHandle<P> {
    peripheral: P,
}

impl<P> PeripheralHandle<P> {
    /// The driver's reference to the peripheral.
    pub closed spec fn driver(&self) -> P {
        self.peripheral
    }

    /// The handle to `peripheral`.
    pub fn new(peripheral: P) -> (handle: Self)
        ensures
            handle.driver() == peripheral,
    {
        PeripheralHandle { peripheral }
    }

    /// The driver's reference to the peripheral.
    pub fn peripheral(&self) -> (peripheral: &P)
        ensures
            *peripheral == self.driver(),
    {
        &self.peripheral
    }
}

/// The handles stand for the peripherals, one for each and in their order.
pub open spec fn wraps<P>(handles: Seq<PeripheralHandle<P>>, peripherals: Seq<P>) -> bool {
    &&& handles.len() == peripherals.len()
    &&& forall|i: int| 0 <= i < handles.len() ==> (#[trigger] handles[i]).driver() == peripherals[i]
}

/// Wraps the peripherals that the driver knows: one handle for each, in the
/// driver's order.
pub fn peripheral_handles<P>(peripherals: Vec<P>) -> (handles: Vec<PeripheralHandle<P>>)
    ensures
        wraps(handles@, peripherals@),
{
    let mut handles: Vec<PeripheralHandle<P>> = Vec::new();
    for peripheral in it: peripherals
        invariant
            handles@.len() == it.index(),
            forall|i: int|
                0 <= i < handles@.len() ==> (#[trigger] handles@[i]).driver() == it.seq()[i],
    {
        handles.push(PeripheralHandle::new(peripheral));
    }
    handles
}

/// Two enumerations of an unchanged set of peripherals give handles to the
/// same peripherals in the same order.
pub proof fn lemma_same_peripherals_same_handles<P>(
    first: Seq<PeripheralHandle<P>>,
    second: Seq<PeripheralHandle<P>>,
    peripherals: Seq<P>,
)
    requires
        wraps(first, peripherals),
        wraps(second, peripherals),
    ensures
        first.len() == second.len(),
        forall|i: int|
            0 <= i < first.len() ==> (#[trigger] first[i]).driver() == second[i].driver(),
{
}

/// The UUIDs of an advertisement, each once: the first occurrence of each, in
/// the order of the advertisement.
pub open spec fn advertised_once(advertised: Seq<u128>) -> Seq<u128>
    decreases advertised.len(),
{
    if advertised.len() == 0 {
        Seq::empty()
    } else {
        let front = advertised_once(advertised.drop_last());
        if front.contains(advertised.last()) {
            front
        } else {
            front.push(advertised.last())
        }
    }
}

/// The set of an advertisement holds the UUIDs of the advertisement and no
/// others, and none of them twice.
pub proof fn lemma_advertised_once(advertised: Seq<u128>)
    ensures
        advertised_once(advertised).no_duplicates(),
        forall|id: u128| advertised_once(advertised).contains(id) <==> advertised.contains(id),
    decreases advertised.len(),
{
    if advertised.len() > 0 {
        let front = advertised.drop_last();
        let last = advertised.last();
        let kept = advertised_once(front);
        lemma_advertised_once(front);
        assert forall|id: u128| advertised_once(advertised).contains(id) <==> advertised.contains(
            id,
        ) by {
            assert(kept.contains(id) <==> front.contains(id));
            if advertised.contains(id) {
                let w = choose|i: int| 0 <= i < advertised.len() && advertised[i] == id;
                if w < front.len() {
                    assert(front[w] == id);
                    assert(kept.contains(id));
                    let k = choose|i: int| 0 <= i < kept.len() && kept[i] == id;
                    assert(advertised_once(advertised)[k] == id);
                } else if !kept.contains(last) {
                    assert(kept.push(last)[kept.len() as int] == id);
                }
            }
            if advertised_once(advertised).contains(id) {
                if kept.contains(id) {
                    let w = choose|i: int| 0 <= i < front.len() && front[i] == id;
                    assert(advertised[w] == id);
                } else {
                    assert(advertised[advertised.len() - 1] == id);
                }
            }
        }
    }
}

/// What a snapshot of a peripheral's advertisement holds: the local name,
/// where one was advertised, and the set of advertised service UUIDs, in the
/// order in which the advertisement first named them.
pub struct PropertiesModel {
    pub local_name: Option<Seq<char>>,
    pub services: Seq<u128>,
}

/// The view of a local name.
pub open spec fn name_view(name: Option<String>) -> Option<Seq<char>> {
    match name {
        Some(text) => Some(text@),
        None => None,
    }
}

/// A snapshot of what a peripheral advertises. It holds each advertised
/// service UUID once.
#[derive(Debug)]
pub struct PeripheralProperties {
    local_name: Option<String>,
    services: Vec<u128>,
}

impl View for PeripheralProperties {
    type V = PropertiesModel;

    closed spec fn view(&self) -> PropertiesModel {
        PropertiesModel { local_name: name_view(self.local_name), services: self.services@ }
    }
}

/// Whether `id` is among `kept`.
fn holds(kept: &Vec<u128>, id: u128) -> (present: bool)
    ensures
        present == kept@.contains(id),
{
    let mut i: usize = 0;
    while i < kept.len()
        invariant
            i <= kept.len(),
            forall|k: int| 0 <= k < i ==> kept@[k] != id,
        decreases kept.len() - i,
    {
        if kept[i] == id {
            return true;
        }
        i += 1;
    }
    false
}

impl PeripheralProperties {
    #[verifier::type_invariant]
    spec fn well_formed(self) -> bool {
        self.services@.no_duplicates()
    }

    /// The snapshot with the given local name and the set of the advertised
    /// service UUIDs: of a UUID that the advertisement names more than once
    /// the first occurrence stays.
    pub fn new(local_name: Option<String>, advertised: Vec<u128>) -> (properties: Self)
        ensures
            properties@ == (PropertiesModel {
                local_name: name_view(local_name),
                services: advertised_once(advertised@),
            }),
            properties@.services.no_duplicates(),
            forall|id: u128| properties@.services.contains(id) <==> advertised@.contains(id),
    {
        let mut services: Vec<u128> = Vec::new();
        let mut i: usize = 0;
        while i < advertised.len()
            invariant
                i <= advertised.len(),
                services@ == advertised_once(advertised@.take(i as int)),
            decreases advertised.len() - i,
        {
            proof {
                assert(advertised@.take(i + 1).drop_last() =~= advertised@.take(i as int));
            }
            let id = advertised[i];
            if !holds(&services, id) {
                services.push(id);
            }
            i += 1;
        }
        proof {
            assert(advertised@.take(advertised@.len() as int) =~= advertised@);
            lemma_advertised_once(advertised@);
        }
        PeripheralProperties { local_name, services }
    }

    /// The local name, where the peripheral advertised one.
    pub fn local_name(&self) -> (name: Option<String>)
        ensures
            name_view(name) == self@.local_name,
    {
        match &self.local_name {
            Some(name) => Some(name.clone()),
            None => None,
        }
    }

    /// The set of advertised service UUIDs as text: one text for each UUID,
    /// in the order in which the advertisement first named them, and no text
    /// twice.
    pub fn services(&self) -> (texts: Vec<String>)
        ensures
            self@.services.no_duplicates(),
            texts@.len() == self@.services.len(),
            forall|i: int|
                0 <= i < texts@.len() ==> (#[trigger] texts@[i])@ == uuid_text(self@.services[i]),
            forall|i: int, j: int|
                0 <= i < j < texts@.len() ==> (#[trigger] texts@[i])@ != (#[trigger] texts@[j])@,
    {
        proof {
            use_type_invariant(self);
        }
        let mut texts: Vec<String> = Vec::new();
        let mut i: usize = 0;
        while i < self.services.len()
            invariant
                i <= self.services.len(),
                texts@.len() == i,
                forall|k: int|
                    0 <= k < i ==> (#[trigger] texts@[k])@ == uuid_text(self.services@[k]),
            decreases self.services.len() - i,
        {
            texts.push(uuid_string(self.services[i]));
            i += 1;
        }
        assert forall|i: int, j: int| 0 <= i < j < texts@.len() implies (#[trigger] texts@[i])@
            != (#[trigger] texts@[j])@ by {
            if texts@[i]@ == texts@[j]@ {
                lemma_uuid_text_names_one_uuid(self.services@[i], self.services@[j]);
            }
        }
        texts
    }
}

} // verus!
