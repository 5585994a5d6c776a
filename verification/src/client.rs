//! The facade over the upstream hosts: a reusable HTTP client handle with a
//! default timeout, the URLs of the three operations, and the parsing of
//! their response bodies. The network round trip itself is left to the
//! caller, which hands the body text back to the parsers here.

use vstd::prelude::*;
use vstd::string::*;

use crate::digits::{dec_seq, u64_to_string};
use crate::error::CoreError;
use crate::json::{json_from_text, json_of_text, JsonValue};
use crate::station::{station_response_of, StationResponse};
use crate::station_timetable::{parse_timetable_list, timetables_of, timetables_view, Timetable};
use crate::train::{train_of, Train};

verus! {

#[verifier::external_type_specification]
#[verifier::external_body]
pub struct ExClient(reqwest::Client);

/// Relies on reqwest::Client::clone: hands out another handle to the same
/// connection pool; nothing is claimed of the copy.
pub assume_specification[ <reqwest::Client as Clone>::clone ](c: &reqwest::Client) -> reqwest::Client;

/// Relies on reqwest::Client::new: builds a client handle around a fresh
/// connection pool, with default settings.
#[verifier::external_body]
fn default_http_client() -> reqwest::Client {
    reqwest::Client::new()
}

/// The configured entry point: one reusable HTTP client handle and the
/// default timeout, in seconds, for every request that does not override it.
#[derive(Debug, Clone)]
pub struct ComboiosApi {
    pub client: reqwest::Client,
    pub default_timeout_secs: u64,
}

impl ComboiosApi {
    /// A facade around a fresh client handle with the default timeout.
    pub fn new() -> (r: ComboiosApi)
        ensures
            r.default_timeout_secs == 10,
    {
        Self::with_client(default_http_client())
    }

    /// A facade around a caller-configured client handle, with the default
    /// timeout.
    pub fn with_client(client: reqwest::Client) -> (r: ComboiosApi)
        ensures
            r.client == client,
            r.default_timeout_secs == 10,
    {
        ComboiosApi { client, default_timeout_secs: 10 }
    }

    /// The same facade with another default timeout.
    pub fn with_timeout(self, timeout_secs: u64) -> (r: ComboiosApi)
        ensures
            r.client == self.client,
            r.default_timeout_secs == timeout_secs,
    {
        ComboiosApi { client: self.client, default_timeout_secs: timeout_secs }
    }

    /// The timeout one request runs under: the caller's override where
    /// given, the configured default otherwise.
    pub fn effective_timeout(&self, timeout_secs: Option<u64>) -> (r: u64)
        ensures
            match timeout_secs {
                Some(t) => r == t,
                None => r == self.default_timeout_secs,
            },
    {
        match timeout_secs {
            Some(t) => t,
            None => self.default_timeout_secs,
        }
    }
}

impl Default for ComboiosApi {
    /// A facade around a fresh client handle with the default timeout.
    fn default() -> (r: ComboiosApi)
        ensures
            r.default_timeout_secs == 10,
    {
        ComboiosApi::new()
    }
}

/// The header value that identifies the client as a mainstream browser; the
/// upstream hosts refuse requests without it.
pub fn user_agent() -> (r: String)
    ensures
        r@ == "Chrome"@,
{
    String::from_str("Chrome")
}

/// The station-search URL: the raw name, path-embedded against the
/// stations host.
pub open spec fn stations_url_spec(name: Seq<char>) -> Seq<char> {
    "https://www.infraestruturasdeportugal.pt/negocios-e-servicos/estacao-nome/"@ + name
}

pub fn stations_url(station_name: &str) -> (r: String)
    ensures
        r@ == stations_url_spec(station_name@),
{
    let mut url = String::from_str(
        "https://www.infraestruturasdeportugal.pt/negocios-e-servicos/estacao-nome/",
    );
    url.append(station_name);
    url
}

/// The compound identifier the timetable endpoint expects: the first two
/// characters, a hyphen, and the rest.
pub open spec fn formatted_station_id(id: Seq<char>) -> Seq<char> {
    id.take(2) + seq!['-'] + id.skip(2)
}

/// Splits a station id into the upstream's compound form; an id of fewer
/// than three characters is rejected before any request could be made.
pub fn format_station_id(station_id: &str) -> (r: Result<String, CoreError>)
    ensures
        station_id@.len() >= 3 ==> (r matches Ok(s) && s@ == formatted_station_id(station_id@)),
        station_id@.len() < 3 ==> (r matches Err(e) && e == CoreError::InvalidIdentifier),
{
    let len = station_id.unicode_len();
    if len < 3 {
        return Err(CoreError::InvalidIdentifier);
    }
    let mut s = station_id.substring_char(0, 2).to_owned();
    s.append("-");
    s.append(station_id.substring_char(2, len));
    proof {
        reveal_strlit("-");
        assert("-"@ =~= seq!['-']);
        assert(station_id@.subrange(0, 2) =~= station_id@.take(2));
        assert(station_id@.subrange(2, len as int) =~= station_id@.skip(2));
    }
    Ok(s)
}

/// The timetable URL for a station id, built only for valid ids.
pub open spec fn timetable_url_spec(id: Seq<char>) -> Seq<char> {
    "https://www.cp.pt/sites/spring/station/trains?stationId="@ + formatted_station_id(id)
}

pub fn timetable_url(station_id: &str) -> (r: Result<String, CoreError>)
    ensures
        station_id@.len() >= 3 ==> (r matches Ok(u) && u@ == timetable_url_spec(station_id@)),
        station_id@.len() < 3 ==> (r matches Err(e) && e == CoreError::InvalidIdentifier),
{
    let formatted = match format_station_id(station_id) {
        Ok(f) => f,
        Err(e) => {
            return Err(e);
        },
    };
    let mut url = String::from_str("https://www.cp.pt/sites/spring/station/trains?stationId=");
    url.append(formatted.as_str());
    Ok(url)
}

/// The train-detail URL for a train number.
pub open spec fn train_url_spec(train_id: u16) -> Seq<char> {
    "https://www.cp.pt/sites/spring/station/trains/train?trainId="@ + dec_seq(train_id as nat)
}

pub fn train_url(train_id: u16) -> (r: String)
    ensures
        r@ == train_url_spec(train_id),
{
    let mut url = String::from_str("https://www.cp.pt/sites/spring/station/trains/train?trainId=");
    let id = u64_to_string(train_id as u64);
    url.append(id.as_str());
    url
}

/// Reads a station-search body: JSON text whose `response` field lists the
/// stations, kept in upstream order.
pub fn parse_stations_response(body: &str) -> (r: Result<StationResponse, CoreError>)
    ensures
        match json_of_text(body@) {
            Some(v) => match station_response_of(v) {
                Some(m) => r matches Ok(s) && s@ == m,
                None => r matches Err(e) && e == CoreError::Deserialization,
            },
            None => r matches Err(e) && e == CoreError::Deserialization,
        },
{
    match json_from_text(body) {
        Ok(v) => StationResponse::from_json(&v),
        Err(e) => Err(e),
    }
}

/// Reads a timetable body: a JSON array of timetable entries, kept in
/// upstream order.
pub fn parse_timetable_response(body: &str) -> (r: Result<Vec<Timetable>, CoreError>)
    ensures
        match json_of_text(body@) {
            Some(JsonValue::Arr(elems)) => match timetables_of(elems@) {
                Some(m) => r matches Ok(v) && timetables_view(v@) == m,
                None => r matches Err(e) && e == CoreError::Deserialization,
            },
            Some(_) => r matches Err(e) && e == CoreError::Deserialization,
            None => r matches Err(e) && e == CoreError::Deserialization,
        },
{
    match json_from_text(body) {
        Ok(JsonValue::Arr(elems)) => parse_timetable_list(&elems),
        Ok(_) => Err(CoreError::Deserialization),
        Err(e) => Err(e),
    }
}

/// Reads a train-detail body: one JSON object.
pub fn parse_train_response(body: &str) -> (r: Result<Train, CoreError>)
    ensures
        match json_of_text(body@) {
            Some(v) => match train_of(v) {
                Some(m) => r matches Ok(t) && t@ == m,
                None => r matches Err(e) && e == CoreError::Deserialization,
            },
            None => r matches Err(e) && e == CoreError::Deserialization,
        },
{
    match json_from_text(body) {
        Ok(v) => Train::from_json(&v),
        Err(e) => Err(e),
    }
}

} // verus!
