use comboios::client::{
    format_station_id, parse_stations_response, stations_url, timetable_url, train_url,
    user_agent, ComboiosApi,
};
use comboios::error::CoreError;

#[test]
fn test_comboios_api_creation() {
    let api = ComboiosApi::new();
    assert_eq!(api.default_timeout_secs, 10);
}

#[test]
fn test_comboios_api_with_client() {
    let client = reqwest::Client::new();
    let api = ComboiosApi::with_client(client);
    assert_eq!(api.default_timeout_secs, 10);
}

#[test]
fn test_comboios_api_with_timeout() {
    let api = ComboiosApi::new().with_timeout(30);
    assert_eq!(api.default_timeout_secs, 30);
}

#[test]
fn test_comboios_api_default() {
    let api = ComboiosApi::default();
    assert_eq!(api.default_timeout_secs, 10);
}

#[test]
fn test_builder_pattern() {
    let client = reqwest::Client::new();
    let api = ComboiosApi::with_client(client).with_timeout(20);
    assert_eq!(api.default_timeout_secs, 20);
}

#[test]
fn test_effective_timeout_override() {
    let api = ComboiosApi::new().with_timeout(25);
    assert_eq!(api.effective_timeout(None), 25);
    assert_eq!(api.effective_timeout(Some(3)), 3);
}

#[test]
fn test_user_agent_is_browser_like() {
    assert_eq!(user_agent(), "Chrome");
}

#[test]
fn test_stations_url_embeds_raw_name() {
    assert_eq!(
        stations_url("Lisboa"),
        "https://www.infraestruturasdeportugal.pt/negocios-e-servicos/estacao-nome/Lisboa"
    );
}

#[test]
fn test_format_station_id_splits_after_two_chars() {
    assert_eq!(format_station_id("9434007").unwrap(), "94-34007");
    assert_eq!(format_station_id("123").unwrap(), "12-3");
}

#[test]
fn test_format_station_id_rejects_short_ids() {
    assert_eq!(format_station_id("94"), Err(CoreError::InvalidIdentifier));
    assert_eq!(format_station_id(""), Err(CoreError::InvalidIdentifier));
}

#[test]
fn test_timetable_url_uses_compound_identifier() {
    assert_eq!(
        timetable_url("9434007").unwrap(),
        "https://www.cp.pt/sites/spring/station/trains?stationId=94-34007"
    );
    assert_eq!(timetable_url("ab"), Err(CoreError::InvalidIdentifier));
}

#[test]
fn test_train_url_renders_decimal_id() {
    assert_eq!(
        train_url(5623),
        "https://www.cp.pt/sites/spring/station/trains/train?trainId=5623"
    );
    assert_eq!(
        train_url(0),
        "https://www.cp.pt/sites/spring/station/trains/train?trainId=0"
    );
}

#[test]
fn test_stations_response_search_scenario() {
    let body = r#"{"response":[{"NodeID":1234,"Nome":"Lisboa"}]}"#;
    let parsed = parse_stations_response(body).unwrap();
    assert_eq!(parsed.response.len(), 1);
    assert_eq!(parsed.response[0].code, "1234");
    assert_eq!(parsed.response[0].designation, "Lisboa");
}

#[test]
fn test_stations_response_preserves_order_and_mixed_codes() {
    let body = r#"{"response":[
        {"code":"94-1","designation":"Porto"},
        {"NodeID":77,"Nome":"Braga"},
        {"code":12,"designation":"Faro"}
    ]}"#;
    let parsed = parse_stations_response(body).unwrap();
    let codes: Vec<&str> = parsed.response.iter().map(|s| s.code.as_str()).collect();
    assert_eq!(codes, vec!["94-1", "77", "12"]);
    let names: Vec<&str> = parsed
        .response
        .iter()
        .map(|s| s.designation.as_str())
        .collect();
    assert_eq!(names, vec!["Porto", "Braga", "Faro"]);
}

#[test]
fn test_stations_response_rejects_broken_entry() {
    let body = r#"{"response":[{"NodeID":1234}]}"#;
    assert_eq!(parse_stations_response(body), Err(CoreError::Deserialization));
    assert_eq!(parse_stations_response("not json"), Err(CoreError::Deserialization));
}
