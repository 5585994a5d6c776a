//! Stations as the upstream search returns them: a code and a designation,
//! where the code arrives either as a JSON string or as a JSON number and is
//! always normalized to a string.

use vstd::prelude::*;
use vstd::string::*;

use crate::digits::{i64_to_string, int_dec_seq};
use crate::error::CoreError;
use crate::json::{field2, get_text, lookup, lookup_field, lookup_field2, text_of, JsonValue};

verus! {

/// Mathematical shape of a station.
pub struct StationModel {
    pub code: Seq<char>,
    pub designation: Seq<char>,
}

/// A named railway stop with an identifying code.
#[derive(Debug, Clone, PartialEq)]
pub struct Station {
    pub code: String,
    pub designation: String,
}

impl View for Station {
    type V = StationModel;

    open spec fn view(&self) -> StationModel {
        StationModel { code: self.code@, designation: self.designation@ }
    }
}

/// The station code a JSON value denotes: a string stands as itself, a
/// number as its decimal text.
pub open spec fn code_text(v: JsonValue) -> Option<Seq<char>> {
    match v {
        JsonValue::Str(s) => Some(s@),
        JsonValue::Int(n) => Some(int_dec_seq(n as int)),
        _ => None,
    }
}

/// The station a JSON value denotes: an object carrying a code (under
/// `code` or `NodeID`, string or number) and a designation (under
/// `designation` or `Nome`, a string).
pub open spec fn station_of(v: JsonValue) -> Option<StationModel> {
    match v {
        JsonValue::Obj(fields) => match (
            field2(fields@, "code"@, "NodeID"@),
            field2(fields@, "designation"@, "Nome"@),
        ) {
            (Some(cv), Some(dv)) => match (code_text(cv), text_of(Some(dv))) {
                (Some(c), Some(d)) => Some(StationModel { code: c, designation: d }),
                _ => None,
            },
            _ => None,
        },
        _ => None,
    }
}

/// Each element of a station list in order, or `None` where any fails.
pub open spec fn stations_of(elems: Seq<JsonValue>) -> Option<Seq<StationModel>>
    decreases elems.len(),
{
    if elems.len() == 0 {
        Some(Seq::empty())
    } else {
        match (stations_of(elems.drop_last()), station_of(elems.last())) {
            (Some(init), Some(last)) => Some(init.push(last)),
            _ => None,
        }
    }
}

/// A sequence of stations as their models.
pub open spec fn stations_view(v: Seq<Station>) -> Seq<StationModel> {
    v.map_values(|s: Station| s@)
}

proof fn lemma_stations_none(elems: Seq<JsonValue>, i: int)
    requires
        0 <= i < elems.len(),
        station_of(elems[i]) is None,
    ensures
        stations_of(elems) is None,
    decreases elems.len(),
{
    if i < elems.len() - 1 {
        assert(elems.drop_last()[i] == elems[i]);
        lemma_stations_none(elems.drop_last(), i);
    }
}

impl Station {
    /// Reads a station out of one JSON object, accepting either key
    /// spelling per field and either encoding of the code.
    pub fn from_json(v: &JsonValue) -> (r: Result<Station, CoreError>)
        ensures
            match station_of(*v) {
                Some(m) => r matches Ok(s) && s@ == m,
                None => r matches Err(e) && e == CoreError::Deserialization,
            },
    {
        match v {
            JsonValue::Obj(fields) => {
                let code = match lookup_field2(fields, "code", "NodeID") {
                    Some(cv) => match cv {
                        JsonValue::Str(s) => s.clone(),
                        JsonValue::Int(n) => i64_to_string(*n),
                        _ => {
                            return Err(CoreError::Deserialization);
                        },
                    },
                    None => {
                        return Err(CoreError::Deserialization);
                    },
                };
                let designation = match get_text(lookup_field2(fields, "designation", "Nome")) {
                    Ok(d) => d,
                    Err(e) => {
                        return Err(e);
                    },
                };
                Ok(Station { code, designation })
            },
            _ => Err(CoreError::Deserialization),
        }
    }

    /// Writes the station back as a JSON object under the canonical key
    /// names; reading that object yields the same station.
    pub fn to_json(&self) -> (j: JsonValue)
        ensures
            station_of(j) == Some(self@),
    {
        let mut fields: Vec<(String, JsonValue)> = Vec::new();
        fields.push((String::from_str("code"), JsonValue::Str(self.code.clone())));
        fields.push((String::from_str("designation"), JsonValue::Str(self.designation.clone())));
        proof {
            reveal_strlit("code");
            reveal_strlit("designation");
            assert("code"@.len() != "designation"@.len());
            let fs = fields@;
            assert(fs.skip(1)[0] == fs[1]);
            assert(fs.skip(1).len() == 1);
            assert(lookup(fs, "code"@) == Some(fs[0].1));
            assert(lookup(fs.skip(1), "designation"@) == Some(fs[1].1));
            assert(lookup(fs, "designation"@) == Some(fs[1].1));
        }
        JsonValue::Obj(fields)
    }
}

/// Reads a station list, keeping upstream order: element `i` of the result
/// comes from element `i` of the array.
pub fn parse_station_list(elems: &Vec<JsonValue>) -> (r: Result<Vec<Station>, CoreError>)
    ensures
        match stations_of(elems@) {
            Some(m) => r matches Ok(v) && stations_view(v@) == m,
            None => r matches Err(e) && e == CoreError::Deserialization,
        },
{
    let mut out: Vec<Station> = Vec::new();
    let mut i: usize = 0;
    while i < elems.len()
        invariant
            0 <= i <= elems@.len(),
            stations_of(elems@.take(i as int)) == Some(stations_view(out@)),
        decreases elems@.len() - i,
    {
        let ghost prev = out@;
        match Station::from_json(&elems[i]) {
            Ok(s) => {
                out.push(s);
                proof {
                    assert(elems@.take(i as int + 1).drop_last() =~= elems@.take(i as int));
                    assert(elems@.take(i as int + 1).last() == elems@[i as int]);
                    assert(stations_view(out@) =~= stations_view(prev).push(out@.last()@));
                }
            },
            Err(_) => {
                proof {
                    lemma_stations_none(elems@, i as int);
                }
                return Err(CoreError::Deserialization);
            },
        }
        i = i + 1;
    }
    proof {
        assert(elems@.take(i as int) =~= elems@);
    }
    Ok(out)
}

/// Writes a station list in order; reading it back yields the same models.
pub fn station_list_to_json(stations: &Vec<Station>) -> (r: Vec<JsonValue>)
    ensures
        stations_of(r@) == Some(stations_view(stations@)),
{
    let mut out: Vec<JsonValue> = Vec::new();
    let mut i: usize = 0;
    while i < stations.len()
        invariant
            0 <= i <= stations@.len(),
            stations_of(out@) == Some(stations_view(stations@.take(i as int))),
        decreases stations@.len() - i,
    {
        let ghost prev = out@;
        out.push(stations[i].to_json());
        proof {
            assert(out@.drop_last() =~= prev);
            assert(stations_view(stations@.take(i as int + 1)) =~= stations_view(
                stations@.take(i as int),
            ).push(stations@[i as int]@));
        }
        i = i + 1;
    }
    proof {
        assert(stations@.take(i as int) =~= stations@);
    }
    out
}

/// The whole body of a station search: an object whose `response` field
/// holds the station list.
pub open spec fn station_response_of(v: JsonValue) -> Option<Seq<StationModel>> {
    match v {
        JsonValue::Obj(fields) => match lookup(fields@, "response"@) {
            Some(JsonValue::Arr(elems)) => stations_of(elems@),
            _ => None,
        },
        _ => None,
    }
}

/// The body of a station search: the stations the upstream host found, in
/// the order it returned them.
#[derive(Debug, Clone, PartialEq)]
pub struct StationResponse {
    pub response: Vec<Station>,
}

impl View for StationResponse {
    type V = Seq<StationModel>;

    open spec fn view(&self) -> Seq<StationModel> {
        stations_view(self.response@)
    }
}

impl StationResponse {
    /// Reads a station-search body.
    pub fn from_json(v: &JsonValue) -> (r: Result<StationResponse, CoreError>)
        ensures
            match station_response_of(*v) {
                Some(m) => r matches Ok(s) && s@ == m,
                None => r matches Err(e) && e == CoreError::Deserialization,
            },
    {
        match v {
            JsonValue::Obj(fields) => match lookup_field(fields, "response") {
                Some(JsonValue::Arr(elems)) => match parse_station_list(elems) {
                    Ok(stations) => Ok(StationResponse { response: stations }),
                    Err(e) => Err(e),
                },
                _ => Err(CoreError::Deserialization),
            },
            _ => Err(CoreError::Deserialization),
        }
    }

    /// Writes the body back; reading it yields the same models.
    pub fn to_json(&self) -> (j: JsonValue)
        ensures
            station_response_of(j) == Some(self@),
    {
        let mut fields: Vec<(String, JsonValue)> = Vec::new();
        fields.push((String::from_str("response"), JsonValue::Arr(
            station_list_to_json(&self.response),
        )));
        JsonValue::Obj(fields)
    }
}

} // verus!
