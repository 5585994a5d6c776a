use comboios::digits::{i64_to_string, parse_u16_str, u64_to_string};
use comboios::error::{check_status, transport_error, CoreError, TransportKind};
use comboios::json::{json_to_text, JsonValue};
use comboios::relay::{handle_errors, wrap_data, AppError, TrainId};

#[test]
fn test_train_id_accepts_u16_range() {
    assert_eq!(TrainId::parse("123"), Ok(TrainId(123)));
    assert_eq!(TrainId::parse("0"), Ok(TrainId(0)));
    assert_eq!(TrainId::parse("65535"), Ok(TrainId(65535)));
    assert_eq!(TrainId::parse("65535").unwrap().into_u16(), 65535);
}

#[test]
fn test_train_id_rejects_malformed_segment_before_any_call() {
    assert_eq!(TrainId::parse(""), Err(AppError::InvalidTrainId));
    assert_eq!(TrainId::parse("abc"), Err(AppError::InvalidTrainId));
    assert_eq!(TrainId::parse("12a"), Err(AppError::InvalidTrainId));
    assert_eq!(TrainId::parse("-1"), Err(AppError::InvalidTrainId));
    assert_eq!(TrainId::parse("65536"), Err(AppError::InvalidTrainId));
    assert_eq!(TrainId::parse("999999"), Err(AppError::InvalidTrainId));
}

#[test]
fn test_status_codes_separate_client_and_server_faults() {
    assert_eq!(AppError::InvalidTrainId.status_code(), 400);
    assert_eq!(
        AppError::CoreError(CoreError::Deserialization).status_code(),
        500
    );
    assert_eq!(handle_errors(true), 408);
    assert_eq!(handle_errors(false), 500);
}

#[test]
fn test_timeout_classified_apart_from_connection_failure() {
    let timeout = transport_error(true, false);
    let connect = transport_error(false, true);
    let other = transport_error(false, false);
    assert_eq!(timeout, CoreError::Transport(TransportKind::Timeout));
    assert_eq!(connect, CoreError::Transport(TransportKind::Connect));
    assert_eq!(other, CoreError::Transport(TransportKind::Other));
    assert_ne!(timeout, connect);
    assert_ne!(timeout, other);
}

#[test]
fn test_check_status_passes_only_success() {
    assert_eq!(check_status(200), Ok(()));
    assert_eq!(check_status(299), Ok(()));
    assert_eq!(check_status(404), Err(CoreError::HttpStatus(404)));
    assert_eq!(check_status(199), Err(CoreError::HttpStatus(199)));
    assert_eq!(check_status(500), Err(CoreError::HttpStatus(500)));
}

#[test]
fn test_wrap_data_frames_payload() {
    let wrapped = wrap_data(JsonValue::Int(7));
    assert_eq!(json_to_text(&wrapped), r#"{"data":7}"#);
}

#[test]
fn test_decimal_rendering() {
    assert_eq!(u64_to_string(0), "0");
    assert_eq!(u64_to_string(10), "10");
    assert_eq!(u64_to_string(65535), "65535");
    assert_eq!(i64_to_string(-123), "-123");
    assert_eq!(i64_to_string(i64::MIN), "-9223372036854775808");
    assert_eq!(i64_to_string(42), "42");
}

#[test]
fn test_parse_u16_str_matches_rendering() {
    assert_eq!(parse_u16_str("0123"), Some(123));
    assert_eq!(parse_u16_str("+1"), None);
    assert_eq!(parse_u16_str(" 1"), None);
}
