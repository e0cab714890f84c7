//! Writing to a characteristic: what is handed to the driver.

use crate::gatt::{Characteristic, CharacteristicModel};
use vstd::prelude::*;

verus! {

/// The two ways in which the driver delivers a write.
#[derive(Debug, Clone, Copy, PartialEq, Eq, Structural)]
pub enum WriteType {
    /// The write is complete once the peripheral has acknowledged it.
    WithResponse,
    /// The write is complete once the local stack has accepted it for
    /// transmission.
    WithoutResponse,
}

/// The way of delivery that a caller asks for.
pub open spec fn write_type_of(with_response: bool) -> WriteType {
    if with_response {
        WriteType::WithResponse
    } else {
        WriteType::WithoutResponse
    }
}

/// The two ways of delivery are never taken for one another.
pub proof fn lemma_write_types_distinct()
    ensures
        write_type_of(true) != write_type_of(false),
        forall|with_response: bool|
            #[trigger] write_type_of(with_response) == WriteType::WithResponse <==> with_response,
{
}

/// What a write request holds.
pub struct WriteRequestModel {
    pub characteristic: CharacteristicModel,
    pub payload: Seq<u8>,
    pub write_type: WriteType,
}

/// A write as it is handed to the driver.
#[derive(Debug)]
pub struct WriteRequest {
    characteristic: Characteristic,
    payload: Vec<u8>,
    write_type: WriteType,
}

impl View for WriteRequest {
    type V = WriteRequestModel;

    closed spec fn view(&self) -> WriteRequestModel {
        WriteRequestModel {
            characteristic: self.characteristic@,
            payload: self.payload@,
            write_type: self.write_type,
        }
    }
}

impl WriteRequest {
    /// The request that sends `data` to `characteristic`, with or without a
    /// response from the peripheral.
    pub fn new(
        characteristic: Characteristic,
        data: Vec<u8>,
        with_response: bool,
    ) -> (request: Self)
        ensures
            request@ == (WriteRequestModel {
                characteristic: characteristic@,
                payload: data@,
                write_type: write_type_of(with_response),
            }),
    {
        let write_type = if with_response {
            WriteType::WithResponse
        } else {
            WriteType::WithoutResponse
        };
        WriteRequest { characteristic, payload: data, write_type }
    }

    /// The characteristic to write to.
    pub fn characteristic(&self) -> (characteristic: &Characteristic)
        ensures
            characteristic@ == self@.characteristic,
    {
        &self.characteristic
    }

    /// The bytes to send.
    pub fn payload(&self) -> (payload: &Vec<u8>)
        ensures
            payload@ == self@.payload,
    {
        &self.payload
    }

    /// The way of delivery.
    pub fn write_type(&self) -> (write_type: WriteType)
        ensures
            write_type == self@.write_type,
    {
        self.write_type
    }
}

} // verus!
