use comboios::client::{parse_timetable_response, parse_train_response};
use comboios::error::CoreError;
use comboios::json::{json_from_text, json_to_text, JsonValue};
use comboios::station::{Station, StationResponse};
use comboios::station_timetable::Timetable;
use comboios::train::{Stopover, Train};

fn lisbon() -> Station {
    Station {
        code: String::from("9434007"),
        designation: String::from("Lisboa - Oriente"),
    }
}

#[test]
fn test_station_from_numeric_code() {
    let v = json_from_text(r#"{"NodeID":1234,"Nome":"Lisboa"}"#).unwrap();
    let s = Station::from_json(&v).unwrap();
    assert_eq!(s.code, "1234");
    assert_eq!(s.designation, "Lisboa");
}

#[test]
fn test_station_from_string_code() {
    let v = json_from_text(r#"{"code":"1234","designation":"Lisboa"}"#).unwrap();
    let s = Station::from_json(&v).unwrap();
    assert_eq!(s.code, "1234");
    assert_eq!(s.designation, "Lisboa");
}

#[test]
fn test_station_rejects_non_scalar_code() {
    let v = json_from_text(r#"{"code":[1],"designation":"Lisboa"}"#).unwrap();
    assert_eq!(Station::from_json(&v), Err(CoreError::Deserialization));
}

#[test]
fn test_timetable_accepts_either_alias() {
    let body = r#"[{
        "trainOrigin": {"code":"1","designation":"A"},
        "trainDestination": {"code":"2","designation":"B"},
        "departureTime": "10:00",
        "arrivalTime": "11:00",
        "trainNumber": 1234,
        "platform": "3"
    }]"#;
    let entries = parse_timetable_response(body).unwrap();
    assert_eq!(entries.len(), 1);
    assert_eq!(entries[0].train_number, 1234);
    assert_eq!(entries[0].departure_time.as_deref(), Some("10:00"));
    assert_eq!(entries[0].delay, None);
    assert_eq!(entries[0].occupancy, None);

    let canonical = r#"[{
        "train_origin": {"code":"1","designation":"A"},
        "train_destination": {"code":"2","designation":"B"},
        "train_number": 1234
    }]"#;
    let entries2 = parse_timetable_response(canonical).unwrap();
    assert_eq!(entries2[0].train_number, 1234);
}

#[test]
fn test_timetable_requires_train_number() {
    let body = r#"[{
        "train_origin": {"code":"1","designation":"A"},
        "train_destination": {"code":"2","designation":"B"}
    }]"#;
    assert_eq!(parse_timetable_response(body), Err(CoreError::Deserialization));
}

#[test]
fn test_timetable_preserves_upstream_order() {
    let body = r#"[
        {"train_origin":{"code":"1","designation":"A"},"train_destination":{"code":"2","designation":"B"},"train_number":1},
        {"train_origin":{"code":"1","designation":"A"},"train_destination":{"code":"2","designation":"B"},"train_number":2},
        {"train_origin":{"code":"1","designation":"A"},"train_destination":{"code":"2","designation":"B"},"train_number":3}
    ]"#;
    let entries = parse_timetable_response(body).unwrap();
    let numbers: Vec<u32> = entries.iter().map(|t| t.train_number).collect();
    assert_eq!(numbers, vec![1, 2, 3]);
}

#[test]
fn test_train_detail_with_stops() {
    let body = r#"{
        "trainNumber": 5623,
        "delay": 5,
        "status": "ON_TIME",
        "trainStops": [
            {"station":{"code":"1","designation":"A"},"latitude":"38.7","longitude":"-9.1"},
            {"station":{"NodeID":2,"Nome":"B"},"latitude":"39.0","longitude":"-8.9","platform":"2"}
        ]
    }"#;
    let t = parse_train_response(body).unwrap();
    assert_eq!(t.train_number, 5623);
    assert_eq!(t.delay, Some(5));
    assert_eq!(t.status.as_deref(), Some("ON_TIME"));
    assert_eq!(t.stops.len(), 2);
    assert_eq!(t.stops[0].station.designation, "A");
    assert_eq!(t.stops[1].station.code, "2");
    assert_eq!(t.stops[1].platform.as_deref(), Some("2"));
}

#[test]
fn test_train_detail_rejects_out_of_range_delay() {
    let body = r#"{"train_number": 1, "delay": 1000, "stops": []}"#;
    assert_eq!(parse_train_response(body), Err(CoreError::Deserialization));
}

#[test]
fn test_train_round_trip_through_wire_format() {
    let train = Train {
        train_number: 5623,
        delay: Some(-2),
        occupancy: Some(60),
        latitude: Some(String::from("38.7")),
        longitude: None,
        status: Some(String::from("DELAYED")),
        stops: vec![
            Stopover {
                station: lisbon(),
                departure_time: Some(String::from("10:00")),
                arrival_time: None,
                platform: Some(String::from("4")),
                latitude: String::from("38.7"),
                longitude: String::from("-9.1"),
                delay: Some(3),
                eta: None,
                etd: Some(String::from("10:03")),
            },
        ],
    };
    let text = json_to_text(&train.to_json());
    let back = Train::from_json(&json_from_text(&text).unwrap()).unwrap();
    assert_eq!(back, train);
}

#[test]
fn test_timetable_round_trip_through_wire_format() {
    let entry = Timetable {
        delay: None,
        train_origin: lisbon(),
        train_destination: Station {
            code: String::from("9430007"),
            designation: String::from("Porto - Campanha"),
        },
        departure_time: Some(String::from("08:30")),
        arrival_time: Some(String::from("11:20")),
        train_number: 120,
        platform: None,
        occupancy: Some(2),
        eta: None,
        etd: None,
    };
    let text = json_to_text(&entry.to_json());
    let back = Timetable::from_json(&json_from_text(&text).unwrap()).unwrap();
    assert_eq!(back, entry);
}

#[test]
fn test_station_response_round_trip() {
    let sr = StationResponse {
        response: vec![lisbon()],
    };
    let text = json_to_text(&sr.to_json());
    let back = StationResponse::from_json(&json_from_text(&text).unwrap()).unwrap();
    assert_eq!(back, sr);
}

#[test]
fn test_json_from_text_reads_structure() {
    let v = json_from_text(r#"{"a":1,"b":[true,null,"x"]}"#).unwrap();
    assert_eq!(
        v,
        JsonValue::Obj(vec![
            (String::from("a"), JsonValue::Int(1)),
            (
                String::from("b"),
                JsonValue::Arr(vec![
                    JsonValue::Bool(true),
                    JsonValue::Null,
                    JsonValue::Str(String::from("x")),
                ])
            ),
        ])
    );
    assert!(json_from_text("{").is_err());
}

#[test]
fn test_json_to_text_writes_structure() {
    let v = JsonValue::Obj(vec![(
        String::from("a"),
        JsonValue::Arr(vec![JsonValue::Int(-3), JsonValue::Null]),
    )]);
    assert_eq!(json_to_text(&v), r#"{"a":[-3,null]}"#);
}
