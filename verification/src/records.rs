//! Domain records and the tagged outcome of each remote operation.
//!
//! A response is exactly one of two things: a success carrying an ordered
//! sequence of records, or a failure carrying diagnostic content whose
//! shape this layer treats as opaque. The dispatch layer never reads a
//! payload without first discriminating on that tag.

use vstd::prelude::*;

verus! {

/// One country record of a result payload.
pub struct Country {
    pub countries_id: i64,
    pub name: String,
}

/// One location record of a result payload.
pub struct Location {
    pub locations_id: i64,
    pub name: String,
}

/// One latest-measurement record of a result payload. The measured value
/// arrives as the decimal text of the wire format and is kept as text.
pub struct Measurement {
    pub sensors_id: i64,
    pub datetime: String,
    pub value: String,
}

/// Diagnostic content of a well-formed non-success response: the HTTP
/// status and the raw body. Logged, never returned to the caller.
pub struct ApiDiagnostic {
    pub status: u16,
    pub body: String,
}

/// The parsed outcome of either country operation.
pub enum CountriesResponse {
    Success(Vec<Country>),
    Failure(ApiDiagnostic),
}

/// The parsed outcome of the location-listing operation.
pub enum LocationsResponse {
    Success(Vec<Location>),
    Failure(ApiDiagnostic),
}

/// The parsed outcome of the latest-measurements operation.
pub enum LocationLatestResponse {
    Success(Vec<Measurement>),
    Failure(ApiDiagnostic),
}

} // verus!
