//! The GATT hierarchy of a peripheral: services, their characteristics, and
//! the descriptors of those. Values are fixed once made.

use crate::entity::Entity;
use crate::order::{collected, ordered, trees, views};
use crate::set::UuidSet;
use crate::text::{uuid_string, uuid_text};
use crate::tree::{tree_order, Order, UuidTree};
use vstd::prelude::*;
use core::cmp::Ordering;
use vstd::std_specs::cmp::{PartialEqSpecImpl, PartialOrdSpecImpl};

verus! {

/// What a descriptor holds.
pub struct DescriptorModel {
    pub uuid: u128,
    pub service_uuid: u128,
    pub characteristic_uuid: u128,
}

/// What a characteristic holds; its descriptors in ascending order of UUID.
pub struct CharacteristicModel {
    pub uuid: u128,
    pub service_uuid: u128,
    pub properties: u8,
    pub descriptors: Seq<DescriptorModel>,
}

/// What a service holds; its characteristics in ascending order of UUID.
pub struct ServiceModel {
    pub uuid: u128,
    pub primary: bool,
    pub characteristics: Seq<CharacteristicModel>,
}

/// One GATT descriptor.
#[derive(Debug)]
pub struct Descriptor {
    uuid: u128,
    service_uuid: u128,
    characteristic_uuid: u128,
}

/// One GATT characteristic.
#[derive(Debug)]
pub struct Characteristic {
    uuid: u128,
    service_uuid: u128,
    properties: u8,
    descriptors: DescriptorSet,
}

/// One GATT service.
#[derive(Debug)]
pub struct Service {
    uuid: u128,
    primary: bool,
    characteristics: CharacteristicSet,
}

/// The descriptors of a characteristic.
pub type DescriptorSet = UuidSet<Descriptor>;

/// The characteristics of a service.
pub type CharacteristicSet = UuidSet<Characteristic>;

/// The services of a peripheral.
pub type ServiceSet = UuidSet<Service>;

impl View for Descriptor {
    type V = DescriptorModel;

    closed spec fn view(&self) -> DescriptorModel {
        DescriptorModel {
            uuid: self.uuid,
            service_uuid: self.service_uuid,
            characteristic_uuid: self.characteristic_uuid,
        }
    }
}

impl View for Characteristic {
    type V = CharacteristicModel;

    closed spec fn view(&self) -> CharacteristicModel {
        CharacteristicModel {
            uuid: self.uuid,
            service_uuid: self.service_uuid,
            properties: self.properties,
            descriptors: self.descriptors@,
        }
    }
}

impl View for Service {
    type V = ServiceModel;

    closed spec fn view(&self) -> ServiceModel {
        ServiceModel {
            uuid: self.uuid,
            primary: self.primary,
            characteristics: self.characteristics@,
        }
    }
}

impl Entity for Descriptor {
    open spec fn uuid_tree(model: DescriptorModel) -> UuidTree {
        UuidTree { uuid: model.uuid, children: Seq::empty() }
    }

    fn uuid_value(&self) -> (id: u128) {
        self.uuid
    }

    fn same(&self, other: &Self) -> (equal: bool) {
        self.uuid == other.uuid
    }

    fn compare(&self, other: &Self) -> (order: Order) {
        if self.uuid < other.uuid {
            Order::Less
        } else if self.uuid > other.uuid {
            Order::Greater
        } else {
            Order::Equal
        }
    }

    fn duplicate(&self) -> (copy: Self) {
        Descriptor {
            uuid: self.uuid,
            service_uuid: self.service_uuid,
            characteristic_uuid: self.characteristic_uuid,
        }
    }
}

impl Entity for Characteristic {
    open spec fn uuid_tree(model: CharacteristicModel) -> UuidTree {
        UuidTree { uuid: model.uuid, children: trees::<Descriptor>(model.descriptors) }
    }

    fn uuid_value(&self) -> (id: u128) {
        self.uuid
    }

    fn same(&self, other: &Self) -> (equal: bool) {
        self.uuid == other.uuid && self.descriptors.same(&other.descriptors)
    }

    fn compare(&self, other: &Self) -> (order: Order) {
        if self.uuid < other.uuid {
            Order::Less
        } else if self.uuid > other.uuid {
            Order::Greater
        } else {
            self.descriptors.compare(&other.descriptors)
        }
    }

    fn duplicate(&self) -> (copy: Self) {
        Characteristic {
            uuid: self.uuid,
            service_uuid: self.service_uuid,
            properties: self.properties,
            descriptors: self.descriptors.duplicate(),
        }
    }
}

impl Entity for Service {
    open spec fn uuid_tree(model: ServiceModel) -> UuidTree {
        UuidTree { uuid: model.uuid, children: trees::<Characteristic>(model.characteristics) }
    }

    fn uuid_value(&self) -> (id: u128) {
        self.uuid
    }

    fn same(&self, other: &Self) -> (equal: bool) {
        self.uuid == other.uuid && self.characteristics.same(&other.characteristics)
    }

    fn compare(&self, other: &Self) -> (order: Order) {
        if self.uuid < other.uuid {
            Order::Less
        } else if self.uuid > other.uuid {
            Order::Greater
        } else {
            self.characteristics.compare(&other.characteristics)
        }
    }

    fn duplicate(&self) -> (copy: Self) {
        Service {
            uuid: self.uuid,
            primary: self.primary,
            characteristics: self.characteristics.duplicate(),
        }
    }
}

impl Clone for Descriptor {
    fn clone(&self) -> (copy: Self)
        ensures
            copy@ == self@,
    {
        self.duplicate()
    }
}

impl Clone for Characteristic {
    fn clone(&self) -> (copy: Self)
        ensures
            copy@ == self@,
    {
        self.duplicate()
    }
}

impl Clone for Service {
    fn clone(&self) -> (copy: Self)
        ensures
            copy@ == self@,
    {
        self.duplicate()
    }
}

impl PartialEq for Descriptor {
    /// `==` is UUID-based equality.
    fn eq(&self, other: &Self) -> (equal: bool) {
        self.same(other)
    }
}

impl PartialEqSpecImpl for Descriptor {
    open spec fn obeys_eq_spec() -> bool {
        true
    }

    open spec fn eq_spec(&self, other: &Self) -> bool {
        Self::uuid_tree(self@) == Self::uuid_tree(other@)
    }
}

impl PartialEq for Characteristic {
    /// `==` is UUID-based equality.
    fn eq(&self, other: &Self) -> (equal: bool) {
        self.same(other)
    }
}

impl PartialEqSpecImpl for Characteristic {
    open spec fn obeys_eq_spec() -> bool {
        true
    }

    open spec fn eq_spec(&self, other: &Self) -> bool {
        Self::uuid_tree(self@) == Self::uuid_tree(other@)
    }
}

impl PartialEq for Service {
    /// `==` is UUID-based equality.
    fn eq(&self, other: &Self) -> (equal: bool) {
        self.same(other)
    }
}

impl PartialEqSpecImpl for Service {
    open spec fn obeys_eq_spec() -> bool {
        true
    }

    open spec fn eq_spec(&self, other: &Self) -> bool {
        Self::uuid_tree(self@) == Self::uuid_tree(other@)
    }
}

impl PartialOrd for Descriptor {
    /// `<` is the order of UUID trees.
    fn partial_cmp(&self, other: &Self) -> (order: Option<Ordering>) {
        Some(self.compare(other).to_ordering())
    }
}

impl PartialOrdSpecImpl for Descriptor {
    open spec fn obeys_partial_cmp_spec() -> bool {
        true
    }

    open spec fn partial_cmp_spec(&self, other: &Self) -> Option<Ordering> {
        Some(tree_order(Self::uuid_tree(self@), Self::uuid_tree(other@)).ordering())
    }
}

impl PartialOrd for Characteristic {
    /// `<` is the order of UUID trees.
    fn partial_cmp(&self, other: &Self) -> (order: Option<Ordering>) {
        Some(self.compare(other).to_ordering())
    }
}

impl PartialOrdSpecImpl for Characteristic {
    open spec fn obeys_partial_cmp_spec() -> bool {
        true
    }

    open spec fn partial_cmp_spec(&self, other: &Self) -> Option<Ordering> {
        Some(tree_order(Self::uuid_tree(self@), Self::uuid_tree(other@)).ordering())
    }
}

impl PartialOrd for Service {
    /// `<` is the order of UUID trees.
    fn partial_cmp(&self, other: &Self) -> (order: Option<Ordering>) {
        Some(self.compare(other).to_ordering())
    }
}

impl PartialOrdSpecImpl for Service {
    open spec fn obeys_partial_cmp_spec() -> bool {
        true
    }

    open spec fn partial_cmp_spec(&self, other: &Self) -> Option<Ordering> {
        Some(tree_order(Self::uuid_tree(self@), Self::uuid_tree(other@)).ordering())
    }
}

impl Descriptor {
    /// The descriptor `uuid` of the characteristic `characteristic_uuid` in
    /// the service `service_uuid`.
    pub fn new(uuid: u128, service_uuid: u128, characteristic_uuid: u128) -> (descriptor: Self)
        ensures
            descriptor@ == (DescriptorModel { uuid, service_uuid, characteristic_uuid }),
    {
        Descriptor { uuid, service_uuid, characteristic_uuid }
    }

    /// The UUID as text.
    pub fn uuid(&self) -> (text: String)
        ensures
            text@ == uuid_text(self@.uuid),
    {
        uuid_string(self.uuid)
    }

    /// The UUID of the service that the descriptor belongs to.
    pub fn service_uuid(&self) -> (id: u128)
        ensures
            id == self@.service_uuid,
    {
        self.service_uuid
    }

    /// The UUID of the characteristic that the descriptor belongs to.
    pub fn characteristic_uuid(&self) -> (id: u128)
        ensures
            id == self@.characteristic_uuid,
    {
        self.characteristic_uuid
    }
}

impl Characteristic {
    /// The characteristic `uuid` of the service `service_uuid`, with the
    /// operations it supports as a set of bits, and its descriptors collected
    /// into a set.
    pub fn new(
        uuid: u128,
        service_uuid: u128,
        properties: u8,
        descriptors: Vec<Descriptor>,
    ) -> (characteristic: Self)
        ensures
            characteristic@ == (CharacteristicModel {
                uuid,
                service_uuid,
                properties,
                descriptors: collected::<Descriptor>(views::<Descriptor>(descriptors@)),
            }),
            ordered::<Descriptor>(characteristic@.descriptors),
    {
        let descriptors = UuidSet::collect(descriptors);
        Characteristic { uuid, service_uuid, properties, descriptors }
    }

    /// The UUID as text.
    pub fn uuid(&self) -> (text: String)
        ensures
            text@ == uuid_text(self@.uuid),
    {
        uuid_string(self.uuid)
    }

    /// The UUID of the service that the characteristic belongs to.
    pub fn service_uuid(&self) -> (id: u128)
        ensures
            id == self@.service_uuid,
    {
        self.service_uuid
    }

    /// The operations that the characteristic supports, one bit each.
    pub fn properties(&self) -> (bits: u8)
        ensures
            bits == self@.properties,
    {
        self.properties
    }

    /// The descriptors of the characteristic.
    pub fn descriptors(&self) -> (set: DescriptorSet)
        ensures
            set@ == self@.descriptors,
            ordered::<Descriptor>(set@),
    {
        self.descriptors.duplicate()
    }
}

impl Service {
    /// The service `uuid`, primary or not, with its characteristics collected
    /// into a set.
    pub fn new(uuid: u128, primary: bool, characteristics: Vec<Characteristic>) -> (service: Self)
        ensures
            service@ == (ServiceModel {
                uuid,
                primary,
                characteristics: collected::<Characteristic>(
                    views::<Characteristic>(characteristics@),
                ),
            }),
            ordered::<Characteristic>(service@.characteristics),
    {
        Service { uuid, primary, characteristics: UuidSet::collect(characteristics) }
    }

    /// The UUID as text.
    pub fn uuid(&self) -> (text: String)
        ensures
            text@ == uuid_text(self@.uuid),
    {
        uuid_string(self.uuid)
    }

    /// Whether this is a primary service.
    pub fn primary(&self) -> (primary: bool)
        ensures
            primary == self@.primary,
    {
        self.primary
    }

    /// The characteristics of the service.
    pub fn characteristics(&self) -> (set: CharacteristicSet)
        ensures
            set@ == self@.characteristics,
            ordered::<Characteristic>(set@),
    {
        self.characteristics.duplicate()
    }
}

} // verus!
