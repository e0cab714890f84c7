//! The outcome of a driver operation as the host sees it.

use vstd::prelude::*;

verus! {

/// The one kind of failure that every operation reports. It carries the
/// driver's message as text.
#[derive(Debug)]
pub struct OperationFailed {
    message: String,
}

impl View for OperationFailed {
    type V = Seq<char>;

    closed spec fn view(&self) -> Seq<char> {
        self.message@
    }
}

impl OperationFailed {
    /// The failure with the given message.
    pub fn new(message: String) -> (failure: Self)
        ensures
            failure@ == message@,
    {
        OperationFailed { message }
    }

    /// The driver's message.
    pub fn message(&self) -> (text: &String)
        ensures
            text@ == self@,
    {
        &self.message
    }
}

/// Carries the outcome of a driver operation over to the host: what the
/// operation produced, untouched, or the failure that holds the driver's
/// message.
pub fn bridge<T>(outcome: Result<T, String>) -> (result: Result<T, OperationFailed>)
    ensures
        outcome matches Ok(value) ==> (result matches Ok(carried) && carried == value),
        outcome matches Err(message) ==> (result matches Err(failure) && failure@ == message@),
{
    match outcome {
        Ok(value) => Ok(value),
        Err(message) => Err(OperationFailed::new(message)),
    }
}

} // verus!
