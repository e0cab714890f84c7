//! The entity and bridging core of a Bluetooth Low Energy central.
//!
//! The radio, the operating system's Bluetooth service and the host runtime
//! are collaborators outside this crate. What is here are the values that they
//! exchange and the decisions taken between them:
//!
//! - [`gatt`]: services, characteristics and descriptors, compared by UUID
//!   ([`entity`], [`tree`]) and kept in sets that are ordered by UUID and hold
//!   each UUID once ([`set`], [`order`]);
//! - [`scan`] and [`adapter`]: the controller that lets one call start the
//!   scan of an adapter, and the handles to adapters;
//! - [`peripheral`]: the handles to peripherals and what a peripheral
//!   advertises;
//! - [`transfer`]: a write as it is handed to the driver;
//! - [`bridge`]: the outcome of a driver operation as the host sees it;
//! - [`relay`]: the hand-over of notifications to a host callback;
//! - [`text`]: the textual form of a UUID.
//!
//! UUIDs are held as 128-bit numbers, their sixteen bytes read in big-endian
//! order, which orders them as their bytes do.

pub mod text;
pub mod tree;
pub mod entity;
pub mod order;
pub mod set;
pub mod gatt;
pub mod scan;
pub mod bridge;
pub mod transfer;
pub mod relay;
pub mod adapter;
pub mod peripheral;
