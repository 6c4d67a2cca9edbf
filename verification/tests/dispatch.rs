use nature_iq::records::ApiDiagnostic;
use nature_iq::records::CountriesResponse;
use nature_iq::records::Country;
use nature_iq::records::LocationLatestResponse;
use nature_iq::records::Location;
use nature_iq::records::LocationsResponse;
use nature_iq::records::Measurement;
use nature_iq::dispatch::all_tools;
use nature_iq::dispatch::ToolName;
use nature_iq::dispatch::format_countries_response;
use nature_iq::dispatch::format_locations_latest_response;
use nature_iq::dispatch::format_locations_response;
use nature_iq::dispatch::server_instructions;
use nature_iq::dispatch::tool_description;
use nature_iq::dispatch::tool_name;

fn diagnostic() -> ApiDiagnostic {
    ApiDiagnostic { status: 500, body: String::from("secret upstream detail") }
}

#[test]
fn countries_failure_is_opaque_literal() {
    let out = format_countries_response(CountriesResponse::Failure(diagnostic()));
    assert_eq!(out, "Request failed");
}

#[test]
fn locations_failure_is_opaque_literal() {
    let out = format_locations_response(LocationsResponse::Failure(diagnostic()));
    assert_eq!(out, "Request failed");
}

#[test]
fn latest_failure_is_opaque_literal() {
    let out = format_locations_latest_response(LocationLatestResponse::Failure(diagnostic()));
    assert_eq!(out, "Request failed");
}

#[test]
fn empty_success_renders_empty_sequence() {
    let out = format_countries_response(CountriesResponse::Success(Vec::new()));
    assert_eq!(out, "[]");
    let out = format_locations_response(LocationsResponse::Success(Vec::new()));
    assert_eq!(out, "[]");
    let out = format_locations_latest_response(LocationLatestResponse::Success(Vec::new()));
    assert_eq!(out, "[]");
}

#[test]
fn single_country_success_renders_record() {
    let results = vec![Country { countries_id: 13, name: String::from("United States") }];
    let out = format_countries_response(CountriesResponse::Success(results));
    assert_eq!(out, "[Country { id: 13, name: \"United States\" }]");
}

#[test]
fn two_locations_render_comma_separated() {
    let results = vec![
        Location { locations_id: 1, name: String::from("Alpha") },
        Location { locations_id: -2, name: String::from("Beta") },
    ];
    let out = format_locations_response(LocationsResponse::Success(results));
    assert_eq!(
        out,
        "[Location { id: 1, name: \"Alpha\" }, Location { id: -2, name: \"Beta\" }]"
    );
}

#[test]
fn measurements_render_all_fields() {
    let results = vec![Measurement {
        sensors_id: 42,
        datetime: String::from("2024-05-01T00:00:00Z"),
        value: String::from("17.5"),
    }];
    let out = format_locations_latest_response(LocationLatestResponse::Success(results));
    assert_eq!(
        out,
        "[Measurement { sensors_id: 42, datetime: \"2024-05-01T00:00:00Z\", value: 17.5 }]"
    );
}

#[test]
fn tool_names_are_advertised() {
    assert_eq!(tool_name(ToolName::ListCountries), "list-countries");
    assert_eq!(tool_name(ToolName::GetCountry), "get-country");
    assert_eq!(tool_name(ToolName::ListLocations), "list-locations");
    assert_eq!(
        tool_name(ToolName::GetLocationLatestMeasurements),
        "get-location-latest-measurements"
    );
}

#[test]
fn tool_descriptions_are_advertised() {
    assert_eq!(
        tool_description(ToolName::ListCountries),
        "Lists Countries in the Open Air Quality data set"
    );
    assert_eq!(
        tool_description(ToolName::GetCountry),
        "Details Air Quality of a Country in the Open Air Quality data set"
    );
    assert_eq!(
        tool_description(ToolName::ListLocations),
        "Lists Locations in the Open Air Quality data set"
    );
    assert_eq!(
        tool_description(ToolName::GetLocationLatestMeasurements),
        "Latest Open Air Quality Measurements for a Location"
    );
}

#[test]
fn registry_holds_exactly_four_tools() {
    let tools = all_tools();
    assert_eq!(
        tools,
        vec![
            ToolName::ListCountries,
            ToolName::GetCountry,
            ToolName::ListLocations,
            ToolName::GetLocationLatestMeasurements,
        ]
    );
}

#[test]
fn instructions_are_advertised() {
    assert_eq!(server_instructions(), "Source of nature intelligence");
}
