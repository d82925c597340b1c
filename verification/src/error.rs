//! The ways in which a call of the billing API fails.

use vstd::prelude::*;

verus! {

/// Why a call did not return what it was made for.
#[derive(Debug, Clone, PartialEq, Eq)]
pub enum Error {
    /// The request could not be carried out: no response came back.
    Transport(String),
    /// The service answered with success, but the body of its response does
    /// not hold the record that the call returns.
    Decode(String),
    /// The service answered with a status other than success.
    Api {
        /// The status code of the response.
        status: u16,
        /// The body of the response, as the service sent it.
        body: String,
    },
}

/// A field of an adjustment interval whose value has no JSON encoding.
#[derive(Debug, Clone, Copy, PartialEq, Eq, Structural, Hash)]
pub enum Field {
    /// The rate of a percentage discount is not a JSON number.
    PercentageDiscount,
    /// The start date has no RFC 3339 text.
    StartDate,
    /// The end date has no RFC 3339 text.
    EndDate,
}

/// Why a request body could not be built.
#[derive(Debug, Clone, Copy, PartialEq, Eq, Structural, Hash)]
pub struct EncodeError {
    /// The position, among the adjustment intervals to add, of the first
    /// one that cannot be encoded.
    pub index: usize,
    /// The first field of that interval that cannot be encoded.
    pub field: Field,
}

} // verus!
