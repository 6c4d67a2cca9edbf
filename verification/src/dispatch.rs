//! Response normalization and the fixed tool registry.
//!
//! Every tool call ends here: a success response is reduced to the
//! rendering of its record sequence, and a failure response to one opaque
//! literal — the diagnostic content is for the log, never for the caller.

use vstd::prelude::*;
use crate::records::CountriesResponse;
use crate::records::LocationsResponse;
use crate::records::LocationLatestResponse;
use crate::records::Country;
use crate::records::Location;
use crate::records::Measurement;
use crate::render::render_country_list;
use crate::render::render_location_list;
use crate::render::render_measurement_list;
use crate::render::spec_render_country_list;
use crate::render::spec_render_location_list;
use crate::render::spec_render_measurement_list;

verus! {

/// Reduces a country-operation response to the single textual result:
/// the rendering of the records on success, the failure literal otherwise.
pub fn format_countries_response(raw_response: CountriesResponse) -> (out: String)
    ensures
        raw_response matches CountriesResponse::Success(results) ==> out@
            == spec_render_country_list(results@),
        raw_response matches CountriesResponse::Failure(_) ==> out@ == "Request failed"@,
{
    match raw_response {
        CountriesResponse::Success(results) => render_country_list(&results),
        CountriesResponse::Failure(_) => String::from_str("Request failed"),
    }
}

/// Reduces a location-listing response to the single textual result:
/// the rendering of the records on success, the failure literal otherwise.
pub fn format_locations_response(raw_response: LocationsResponse) -> (out: String)
    ensures
        raw_response matches LocationsResponse::Success(results) ==> out@
            == spec_render_location_list(results@),
        raw_response matches LocationsResponse::Failure(_) ==> out@ == "Request failed"@,
{
    match raw_response {
        LocationsResponse::Success(results) => render_location_list(&results),
        LocationsResponse::Failure(_) => String::from_str("Request failed"),
    }
}

/// Reduces a latest-measurements response to the single textual result:
/// the rendering of the records on success, the failure literal otherwise.
pub fn format_locations_latest_response(raw_response: LocationLatestResponse) -> (out: String)
    ensures
        raw_response matches LocationLatestResponse::Success(results) ==> out@
            == spec_render_measurement_list(results@),
        raw_response matches LocationLatestResponse::Failure(_) ==> out@ == "Request failed"@,
{
    match raw_response {
        LocationLatestResponse::Success(results) => render_measurement_list(&results),
        LocationLatestResponse::Failure(_) => String::from_str("Request failed"),
    }
}

/// Law: a success response whose result sequence is empty renders as the
/// empty sequence's two-character rendering, which is never the failure
/// literal. This holds for each of the three payload kinds.
pub proof fn lemma_empty_success_is_not_failure()
    ensures
        spec_render_country_list(Seq::<Country>::empty()) == "[]"@,
        spec_render_location_list(Seq::<Location>::empty()) == "[]"@,
        spec_render_measurement_list(Seq::<Measurement>::empty()) == "[]"@,
        "[]"@ != "Request failed"@,
{
    reveal_strlit("[");
    reveal_strlit("]");
    reveal_strlit("[]");
    reveal_strlit("Request failed");
    assert("["@ + Seq::<char>::empty() + "]"@ =~= "[]"@);
    assert(spec_render_country_list(Seq::<Country>::empty()) == "[]"@);
    assert(spec_render_location_list(Seq::<Location>::empty()) == "[]"@);
    assert(spec_render_measurement_list(Seq::<Measurement>::empty()) == "[]"@);
}

/// The fixed, enumerable set of tools this library exposes.
#[derive(Debug, Clone, Copy, PartialEq, Eq, Structural)]
pub enum ToolName {
    ListCountries,
    GetCountry,
    ListLocations,
    GetLocationLatestMeasurements,
}

/// The registry: every tool this library exposes, in advertised order.
pub fn all_tools() -> (r: Vec<ToolName>)
    ensures
        r@ == seq![
            ToolName::ListCountries,
            ToolName::GetCountry,
            ToolName::ListLocations,
            ToolName::GetLocationLatestMeasurements,
        ],
{
    let mut v: Vec<ToolName> = Vec::new();
    v.push(ToolName::ListCountries);
    v.push(ToolName::GetCountry);
    v.push(ToolName::ListLocations);
    v.push(ToolName::GetLocationLatestMeasurements);
    proof {
        assert(v@ =~= seq![
            ToolName::ListCountries,
            ToolName::GetCountry,
            ToolName::ListLocations,
            ToolName::GetLocationLatestMeasurements,
        ]);
    }
    v
}

/// The advertised name of one tool.
pub fn tool_name(tool: ToolName) -> (r: &'static str)
    ensures
        tool == ToolName::ListCountries ==> r@ == "list-countries"@,
        tool == ToolName::GetCountry ==> r@ == "get-country"@,
        tool == ToolName::ListLocations ==> r@ == "list-locations"@,
        tool == ToolName::GetLocationLatestMeasurements ==> r@
            == "get-location-latest-measurements"@,
{
    match tool {
        ToolName::ListCountries => "list-countries",
        ToolName::GetCountry => "get-country",
        ToolName::ListLocations => "list-locations",
        ToolName::GetLocationLatestMeasurements => "get-location-latest-measurements",
    }
}

/// The advertised human-readable description of one tool.
pub fn tool_description(tool: ToolName) -> (r: &'static str)
    ensures
        tool == ToolName::ListCountries ==> r@
            == "Lists Countries in the Open Air Quality data set"@,
        tool == ToolName::GetCountry ==> r@
            == "Details Air Quality of a Country in the Open Air Quality data set"@,
        tool == ToolName::ListLocations ==> r@
            == "Lists Locations in the Open Air Quality data set"@,
        tool == ToolName::GetLocationLatestMeasurements ==> r@
            == "Latest Open Air Quality Measurements for a Location"@,
{
    match tool {
        ToolName::ListCountries => "Lists Countries in the Open Air Quality data set",
        ToolName::GetCountry => "Details Air Quality of a Country in the Open Air Quality data set",
        ToolName::ListLocations => "Lists Locations in the Open Air Quality data set",
        ToolName::GetLocationLatestMeasurements => "Latest Open Air Quality Measurements for a Location",
    }
}

/// The static instructions string advertised at session start.
pub fn server_instructions() -> (r: &'static str)
    ensures
        r@ == "Source of nature intelligence"@,
{
    "Source of nature intelligence"
}

} // verus!
