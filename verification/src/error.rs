//! The failures that the client reports.

use vstd::prelude::*;

verus! {

/// Why an operation of the client failed.
#[derive(Debug, Clone, Copy, PartialEq, Eq, Structural)]
pub enum ApiError {
    /// A price, percentage or date is not written in its wire format.
    Format,
    /// The login was refused, its response is malformed, or the token cannot stand in a header.
    Auth,
    /// The request could not be written, or the transport did not carry it out.
    Request,
    /// A response is not the JSON document that the query expects.
    Decode,
    /// The address of a query is not a valid URL.
    Url,
}

} // verus!
