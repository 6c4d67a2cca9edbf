//! Tool inputs and the outbound request shapes they map onto.
//!
//! Each tool input is a validated parameter payload; each outbound request
//! shape carries the path and query parameters of one remote operation.
//! The mapping is pure: required input fields become path parameters,
//! optional input fields pass through to the same-named query parameters,
//! and every query parameter not sourced from the input stays absent, with
//! the one exception of the latest-measurements page size, which is fixed.

use vstd::prelude::*;

verus! {

/// Parameters of the country-listing tool: an optional page number.
pub struct CountriesListRequest {
    pub page: Option<i64>,
}

/// Parameters of the single-country tool: the country identifier.
pub struct CountryDetailsRequest {
    pub countries_id: i64,
}

/// Parameters of the location-listing tool: an optional page number and an
/// optional country filter.
pub struct LocationsListRequest {
    pub page: Option<i64>,
    pub countries_id: Option<i64>,
}

/// Parameters of the latest-measurements tool: the location identifier and
/// an optional page number.
pub struct LocationLatestRequest {
    pub locations_id: i64,
    pub page: Option<i64>,
}

/// Query parameters of the country-listing operation.
pub struct CountriesQuery {
    pub order_by: Option<String>,
    pub sort_order: Option<String>,
    pub providers_id: Option<i64>,
    pub parameters_id: Option<i64>,
    pub limit: Option<i64>,
    pub page: Option<i64>,
}

/// The country-listing operation: query parameters only.
pub struct CountriesApiRequest {
    pub query: CountriesQuery,
}

/// Path parameters of the single-country operation.
pub struct CountryPath {
    pub countries_id: i64,
}

/// The single-country operation: a path parameter only.
pub struct CountryApiRequest {
    pub path: CountryPath,
}

/// Query parameters of the location-listing operation.
pub struct LocationsQuery {
    pub coordinates: Option<String>,
    pub radius: Option<i64>,
    pub providers_id: Option<i64>,
    pub parameters_id: Option<i64>,
    pub limit: Option<i64>,
    pub page: Option<i64>,
    pub owner_contacts_id: Option<i64>,
    pub manufacturers_id: Option<i64>,
    pub order_by: Option<String>,
    pub sort_order: Option<String>,
    pub licenses_id: Option<i64>,
    pub monitor: Option<bool>,
    pub mobile: Option<bool>,
    pub instruments_id: Option<i64>,
    pub iso: Option<String>,
    pub countries_id: Option<i64>,
    pub bbox: Option<String>,
}

/// The location-listing operation: query parameters only.
pub struct LocationsApiRequest {
    pub query: LocationsQuery,
}

/// Path parameters of the latest-measurements operation.
pub struct LocationLatestPath {
    pub locations_id: i64,
}

/// Query parameters of the latest-measurements operation.
pub struct LocationLatestQuery {
    pub limit: Option<i64>,
    pub page: Option<i64>,
    pub datetime_min: Option<String>,
}

/// The latest-measurements operation: a path parameter plus query parameters.
pub struct LocationLatestApiRequest {
    pub path: LocationLatestPath,
    pub query: LocationLatestQuery,
}

/// The page size every latest-measurements request asks for.
pub const LATEST_MEASUREMENTS_LIMIT: i64 = 100;

/// The one request the country-listing tool sends for a given input.
pub open spec fn spec_countries_request(input: CountriesListRequest) -> CountriesApiRequest {
    CountriesApiRequest {
        query: CountriesQuery {
            order_by: None,
            sort_order: None,
            providers_id: None,
            parameters_id: None,
            limit: None,
            page: input.page,
        },
    }
}

/// The one request the single-country tool sends for a given input.
pub open spec fn spec_country_request(input: CountryDetailsRequest) -> CountryApiRequest {
    CountryApiRequest { path: CountryPath { countries_id: input.countries_id } }
}

/// The one request the location-listing tool sends for a given input.
pub open spec fn spec_locations_request(input: LocationsListRequest) -> LocationsApiRequest {
    LocationsApiRequest {
        query: LocationsQuery {
            coordinates: None,
            radius: None,
            providers_id: None,
            parameters_id: None,
            limit: None,
            page: input.page,
            owner_contacts_id: None,
            manufacturers_id: None,
            order_by: None,
            sort_order: None,
            licenses_id: None,
            monitor: None,
            mobile: None,
            instruments_id: None,
            iso: None,
            countries_id: input.countries_id,
            bbox: None,
        },
    }
}

/// The one request the latest-measurements tool sends for a given input.
pub open spec fn spec_location_latest_request(input: LocationLatestRequest) -> LocationLatestApiRequest {
    LocationLatestApiRequest {
        path: LocationLatestPath { locations_id: input.locations_id },
        query: LocationLatestQuery {
            limit: Some(LATEST_MEASUREMENTS_LIMIT),
            page: input.page,
            datetime_min: None,
        },
    }
}

/// Builds the country-listing request: the page number passes through and
/// every other query parameter stays absent.
pub fn build_countries_request(input: &CountriesListRequest) -> (r: CountriesApiRequest)
    ensures
        r == spec_countries_request(*input),
{
    CountriesApiRequest {
        query: CountriesQuery {
            order_by: None,
            sort_order: None,
            providers_id: None,
            parameters_id: None,
            limit: None,
            page: input.page,
        },
    }
}

/// Builds the single-country request: the identifier becomes the path
/// parameter.
pub fn build_country_request(input: &CountryDetailsRequest) -> (r: CountryApiRequest)
    ensures
        r == spec_country_request(*input),
{
    CountryApiRequest { path: CountryPath { countries_id: input.countries_id } }
}

/// Builds the location-listing request: the page number and the country
/// filter pass through and every other query parameter stays absent.
pub fn build_locations_request(input: &LocationsListRequest) -> (r: LocationsApiRequest)
    ensures
        r == spec_locations_request(*input),
{
    LocationsApiRequest {
        query: LocationsQuery {
            coordinates: None,
            radius: None,
            providers_id: None,
            parameters_id: None,
            limit: None,
            page: input.page,
            owner_contacts_id: None,
            manufacturers_id: None,
            order_by: None,
            sort_order: None,
            licenses_id: None,
            monitor: None,
            mobile: None,
            instruments_id: None,
            iso: None,
            countries_id: input.countries_id,
            bbox: None,
        },
    }
}

/// Builds the latest-measurements request: the identifier becomes the path
/// parameter, the page number passes through, the page size is fixed, and
/// the datetime filter stays absent.
pub fn build_location_latest_request(input: &LocationLatestRequest) -> (r: LocationLatestApiRequest)
    ensures
        r == spec_location_latest_request(*input),
{
    LocationLatestApiRequest {
        path: LocationLatestPath { locations_id: input.locations_id },
        query: LocationLatestQuery {
            limit: Some(LATEST_MEASUREMENTS_LIMIT),
            page: input.page,
            datetime_min: None,
        },
    }
}

/// Law: an optional page number passes through the country-listing mapping
/// unchanged — absent stays absent, a present value is kept exactly — and
/// the query parameters the input does not source stay absent.
pub proof fn lemma_countries_optional_passthrough(input: CountriesListRequest)
    ensures
        input.page is None ==> spec_countries_request(input).query.page is None,
        forall|p: i64|
            input.page == Some(p) ==> spec_countries_request(input).query.page == Some(p),
        spec_countries_request(input).query.order_by is None,
        spec_countries_request(input).query.sort_order is None,
        spec_countries_request(input).query.providers_id is None,
        spec_countries_request(input).query.parameters_id is None,
        spec_countries_request(input).query.limit is None,
{
}

/// Law: the optional page number and country filter pass through the
/// location-listing mapping unchanged — absent stays absent, a present
/// value is kept exactly — and the query parameters the input does not
/// source stay absent.
pub proof fn lemma_locations_optional_passthrough(input: LocationsListRequest)
    ensures
        input.page is None ==> spec_locations_request(input).query.page is None,
        input.countries_id is None ==> spec_locations_request(input).query.countries_id is None,
        forall|p: i64|
            input.page == Some(p) ==> spec_locations_request(input).query.page == Some(p),
        forall|c: i64|
            input.countries_id == Some(c) ==> spec_locations_request(input).query.countries_id
                == Some(c),
        spec_locations_request(input).query.coordinates is None,
        spec_locations_request(input).query.radius is None,
        spec_locations_request(input).query.providers_id is None,
        spec_locations_request(input).query.parameters_id is None,
        spec_locations_request(input).query.limit is None,
        spec_locations_request(input).query.owner_contacts_id is None,
        spec_locations_request(input).query.manufacturers_id is None,
        spec_locations_request(input).query.order_by is None,
        spec_locations_request(input).query.sort_order is None,
        spec_locations_request(input).query.licenses_id is None,
        spec_locations_request(input).query.monitor is None,
        spec_locations_request(input).query.mobile is None,
        spec_locations_request(input).query.instruments_id is None,
        spec_locations_request(input).query.iso is None,
        spec_locations_request(input).query.bbox is None,
{
}

/// Law: the optional page number passes through the latest-measurements
/// mapping unchanged, and the datetime filter stays absent.
pub proof fn lemma_location_latest_optional_passthrough(input: LocationLatestRequest)
    ensures
        input.page is None ==> spec_location_latest_request(input).query.page is None,
        forall|p: i64|
            input.page == Some(p) ==> spec_location_latest_request(input).query.page == Some(p),
        spec_location_latest_request(input).query.datetime_min is None,
{
}

/// Law: the country-listing mapping loses no declared input information —
/// two inputs that build the same request are the same input.
pub proof fn lemma_countries_request_lossless(a: CountriesListRequest, b: CountriesListRequest)
    ensures
        spec_countries_request(a) == spec_countries_request(b) ==> a == b,
{
}

/// Law: the single-country mapping loses no declared input information —
/// two inputs that build the same request are the same input.
pub proof fn lemma_country_request_lossless(a: CountryDetailsRequest, b: CountryDetailsRequest)
    ensures
        spec_country_request(a) == spec_country_request(b) ==> a == b,
{
}

/// Law: the location-listing mapping loses no declared input information —
/// two inputs that build the same request are the same input.
pub proof fn lemma_locations_request_lossless(a: LocationsListRequest, b: LocationsListRequest)
    ensures
        spec_locations_request(a) == spec_locations_request(b) ==> a == b,
{
}

/// Law: the latest-measurements mapping loses no declared input
/// information — two inputs that build the same request are the same
/// input.
pub proof fn lemma_location_latest_request_lossless(
    a: LocationLatestRequest,
    b: LocationLatestRequest,
)
    ensures
        spec_location_latest_request(a) == spec_location_latest_request(b) ==> a == b,
{
}

/// Law: every latest-measurements request asks for the fixed page size,
/// whatever the input holds.
pub proof fn lemma_location_latest_limit_fixed(input: LocationLatestRequest)
    ensures
        spec_location_latest_request(input).query.limit == Some(LATEST_MEASUREMENTS_LIMIT),
{
}

} // verus!
