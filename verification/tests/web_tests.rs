use comboios::error::CoreError;
use comboios::json::json_from_text;
use comboios::web::{StationResponse, StopoverResponse, TrainDetails, TrainDetailsResponse};

#[test]
fn test_web_station_response_accepts_relay_names() {
    let v = json_from_text(r#"{"data":[{"code":"1234","designation":"Lisboa"}]}"#).unwrap();
    let r = StationResponse::from_json(&v).unwrap();
    assert_eq!(r.data.len(), 1);
    assert_eq!(r.data[0].id, "1234");
    assert_eq!(r.data[0].name, "Lisboa");

    let v2 = json_from_text(r#"{"data":[{"id":"7","name":"Braga"}]}"#).unwrap();
    let r2 = StationResponse::from_json(&v2).unwrap();
    assert_eq!(r2.data[0].id, "7");
    assert_eq!(r2.data[0].name, "Braga");
}

#[test]
fn test_web_stopover_response_keeps_order() {
    let body = r#"{"data":[
        {"train_origin":{"id":"1","name":"A"},"train_destination":{"id":"2","name":"B"},"trainNumber":9},
        {"train_origin":{"id":"1","name":"A"},"train_destination":{"id":"2","name":"B"},"trainNumber":8}
    ]}"#;
    let r = StopoverResponse::from_json(&json_from_text(body).unwrap()).unwrap();
    let numbers: Vec<u32> = r.data.iter().map(|t| t.train_number).collect();
    assert_eq!(numbers, vec![9, 8]);
}

#[test]
fn test_web_train_details_stops_optional() {
    let v = json_from_text(r#"{"train_number":5,"stops":null}"#).unwrap();
    let t = TrainDetails::from_json(&v).unwrap();
    assert_eq!(t.id, 5);
    assert_eq!(t.stops, None);

    let with_stops = r#"{"data":{"id":5,"stops":[
        {"station":{"id":"1","name":"A"},"latitude":"38.7","longitude":"-9.1"}
    ]}}"#;
    let r = TrainDetailsResponse::from_json(&json_from_text(with_stops).unwrap()).unwrap();
    let stops = r.data.stops.unwrap();
    assert_eq!(stops.len(), 1);
    assert_eq!(stops[0].station.name, "A");
}

#[test]
fn test_web_models_read_the_relay_wire_format() {
    // What the relay writes for a train detail is exactly what the
    // front-end models read back.
    let train = comboios::train::Train {
        train_number: 512,
        delay: Some(1),
        occupancy: None,
        latitude: None,
        longitude: None,
        status: Some(String::from("ON_TIME")),
        stops: vec![comboios::train::Stopover {
            station: comboios::station::Station {
                code: String::from("94"),
                designation: String::from("Aveiro"),
            },
            departure_time: None,
            arrival_time: Some(String::from("12:00")),
            platform: None,
            latitude: String::from("40.6"),
            longitude: String::from("-8.6"),
            delay: None,
            eta: None,
            etd: None,
        }],
    };
    let wire = comboios::json::json_to_text(&comboios::relay::wrap_data(train.to_json()));
    let read = TrainDetailsResponse::from_json(&json_from_text(&wire).unwrap()).unwrap();
    assert_eq!(read.data.id, 512);
    assert_eq!(read.data.delay, Some(1));
    assert_eq!(read.data.status.as_deref(), Some("ON_TIME"));
    let stops = read.data.stops.unwrap();
    assert_eq!(stops[0].station.id, "94");
    assert_eq!(stops[0].station.name, "Aveiro");
    assert_eq!(stops[0].arrival_time.as_deref(), Some("12:00"));
}

#[test]
fn test_web_train_details_rejects_bad_stops() {
    let v = json_from_text(r#"{"id":5,"stops":"none"}"#).unwrap();
    assert_eq!(TrainDetails::from_json(&v), Err(CoreError::Deserialization));
}
