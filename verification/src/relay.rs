//! What the relay server decides on its own: validating the train id path
//! segment before any upstream call, wrapping payloads under a `data` key,
//! and translating failures into status codes.

use vstd::prelude::*;
use vstd::string::*;

use crate::digits::{all_digits, dec_val, parse_u16_str};
use crate::error::CoreError;
use crate::json::{lookup, JsonValue};

verus! {

/// A payload as the relay returns it: wrapped under a `data` key.
#[derive(Debug)]
pub struct AppResponse<T> {
    pub data: T,
}

/// The query parameters of a station search.
#[derive(Debug, Clone, PartialEq)]
pub struct SearchParams {
    pub query: String,
}

/// A validated train id: an unsigned 16-bit number read from the path.
#[derive(Debug, Clone, Copy, PartialEq, Eq, Structural)]
pub struct TrainId(pub u16);

/// The relay's failures: an upstream failure passed through, or a train id
/// rejected at the boundary.
#[derive(Debug, Clone, Copy, PartialEq, Eq, Structural)]
pub enum AppError {
    CoreError(CoreError),
    InvalidTrainId,
}

impl TrainId {
    /// Reads a train id from a path segment: accepted exactly when the
    /// segment is a nonempty digit string whose value fits 16 bits, so a
    /// malformed segment fails before any upstream call is attempted.
    pub fn parse(segment: &str) -> (r: Result<TrainId, AppError>)
        ensures
            match r {
                Ok(id) => segment@.len() > 0 && all_digits(segment@) && id.0 == dec_val(segment@),
                Err(e) => (segment@.len() == 0 || !all_digits(segment@) || dec_val(segment@)
                    > u16::MAX) && e == AppError::InvalidTrainId,
            },
    {
        match parse_u16_str(segment) {
            Some(n) => Ok(TrainId(n)),
            None => Err(AppError::InvalidTrainId),
        }
    }

    /// The plain number.
    pub fn into_u16(self) -> (r: u16)
        ensures
            r == self.0,
    {
        self.0
    }
}

impl AppError {
    /// The status the relay answers with: a client error only for a
    /// rejected train id, a server error for any upstream failure.
    pub fn status_code(&self) -> (s: u16)
        ensures
            self matches AppError::CoreError(_) ==> s == 500,
            *self is InvalidTrainId ==> s == 400,
    {
        match self {
            AppError::CoreError(_) => 500,
            AppError::InvalidTrainId => 400,
        }
    }
}

/// The status for a request the relay itself gave up on: a timed-out
/// request is answered distinctly from any other internal failure.
pub fn handle_errors(timed_out: bool) -> (s: u16)
    ensures
        timed_out ==> s == 408,
        !timed_out ==> s == 500,
{
    if timed_out {
        408
    } else {
        500
    }
}

/// The payload a relay response carries under its `data` key.
pub open spec fn data_field_of(j: JsonValue) -> Option<JsonValue> {
    match j {
        JsonValue::Obj(fields) => lookup(fields@, "data"@),
        _ => None,
    }
}

/// Wraps a payload the way every relay response is framed: an object whose
/// single `data` field holds it.
pub fn wrap_data(v: JsonValue) -> (r: JsonValue)
    ensures
        data_field_of(r) == Some(v),
{
    let mut fields: Vec<(String, JsonValue)> = Vec::new();
    fields.push((String::from_str("data"), v));
    JsonValue::Obj(fields)
}

} // verus!
