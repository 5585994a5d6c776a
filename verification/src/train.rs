//! A train's detail view: its identity, live position fields, and the
//! ordered sequence of stopovers along its route, kept exactly in the
//! order the upstream host returns them.

use vstd::prelude::*;
use vstd::string::*;

use crate::error::CoreError;
use crate::json::{
    field2, get_opt_i8, get_opt_text, get_opt_u8, get_text, get_u32, lemma_lookup_found, lookup,
    lookup_field, lookup_field2, opt_i8_of, opt_str_view, opt_text_of, opt_u8_of, text_of, u32_of,
    JsonValue,
};
use crate::station::{station_of, Station, StationModel};
use crate::station_timetable::{opt_i8_json, opt_text_json, opt_u8_json, station_field_of};

verus! {

/// Mathematical shape of one stop in a train's route.
pub struct StopoverModel {
    pub station: StationModel,
    pub departure_time: Option<Seq<char>>,
    pub arrival_time: Option<Seq<char>>,
    pub platform: Option<Seq<char>>,
    pub latitude: Seq<char>,
    pub longitude: Seq<char>,
    pub delay: Option<i8>,
    pub eta: Option<Seq<char>>,
    pub etd: Option<Seq<char>>,
}

/// One stop within a specific train's full route.
#[derive(Debug, Clone, PartialEq)]
pub struct Stopover {
    pub station: Station,
    pub departure_time: Option<String>,
    pub arrival_time: Option<String>,
    pub platform: Option<String>,
    pub latitude: String,
    pub longitude: String,
    pub delay: Option<i8>,
    pub eta: Option<String>,
    pub etd: Option<String>,
}

impl View for Stopover {
    type V = StopoverModel;

    open spec fn view(&self) -> StopoverModel {
        StopoverModel {
            station: self.station@,
            departure_time: opt_str_view(self.departure_time),
            arrival_time: opt_str_view(self.arrival_time),
            platform: opt_str_view(self.platform),
            latitude: self.latitude@,
            longitude: self.longitude@,
            delay: self.delay,
            eta: opt_str_view(self.eta),
            etd: opt_str_view(self.etd),
        }
    }
}

/// The stopover an object's fields denote, each field accepted under its
/// canonical name or its upstream alias.
pub open spec fn stopover_of_fields(fs: Seq<(String, JsonValue)>) -> Option<StopoverModel> {
    let station = station_field_of(lookup(fs, "station"@));
    let departure = opt_text_of(field2(fs, "departure_time"@, "departure"@));
    let arrival = opt_text_of(field2(fs, "arrival_time"@, "arrival"@));
    let platform = opt_text_of(lookup(fs, "platform"@));
    let latitude = text_of(lookup(fs, "latitude"@));
    let longitude = text_of(lookup(fs, "longitude"@));
    let delay = opt_i8_of(lookup(fs, "delay"@));
    let eta = opt_text_of(lookup(fs, "eta"@));
    let etd = opt_text_of(lookup(fs, "etd"@));
    if station is Some && departure is Some && arrival is Some && platform is Some && latitude
        is Some && longitude is Some && delay is Some && eta is Some && etd is Some {
        Some(
            StopoverModel {
                station: station->Some_0,
                departure_time: departure->Some_0,
                arrival_time: arrival->Some_0,
                platform: platform->Some_0,
                latitude: latitude->Some_0,
                longitude: longitude->Some_0,
                delay: delay->Some_0,
                eta: eta->Some_0,
                etd: etd->Some_0,
            },
        )
    } else {
        None
    }
}

/// The stopover a JSON value denotes.
pub open spec fn stopover_of(v: JsonValue) -> Option<StopoverModel> {
    match v {
        JsonValue::Obj(fields) => stopover_of_fields(fields@),
        _ => None,
    }
}

/// Each element of a stopover list in order, or `None` where any fails.
pub open spec fn stopovers_of(elems: Seq<JsonValue>) -> Option<Seq<StopoverModel>>
    decreases elems.len(),
{
    if elems.len() == 0 {
        Some(Seq::empty())
    } else {
        match (stopovers_of(elems.drop_last()), stopover_of(elems.last())) {
            (Some(init), Some(last)) => Some(init.push(last)),
            _ => None,
        }
    }
}

/// A sequence of stopovers as their models.
pub open spec fn stopovers_view(v: Seq<Stopover>) -> Seq<StopoverModel> {
    v.map_values(|s: Stopover| s@)
}

proof fn lemma_stopovers_none(elems: Seq<JsonValue>, i: int)
    requires
        0 <= i < elems.len(),
        stopover_of(elems[i]) is None,
    ensures
        stopovers_of(elems) is None,
    decreases elems.len(),
{
    if i < elems.len() - 1 {
        assert(elems.drop_last()[i] == elems[i]);
        lemma_stopovers_none(elems.drop_last(), i);
    }
}

impl Stopover {
    /// Reads one stopover out of a JSON object, accepting either key
    /// spelling per field.
    pub fn from_json(v: &JsonValue) -> (r: Result<Stopover, CoreError>)
        ensures
            match stopover_of(*v) {
                Some(m) => r matches Ok(s) && s@ == m,
                None => r matches Err(e) && e == CoreError::Deserialization,
            },
    {
        let fields = match v {
            JsonValue::Obj(fields) => fields,
            _ => {
                return Err(CoreError::Deserialization);
            },
        };
        let station = match lookup_field(fields, "station") {
            Some(x) => match Station::from_json(x) {
                Ok(s) => s,
                Err(e) => {
                    return Err(e);
                },
            },
            None => {
                return Err(CoreError::Deserialization);
            },
        };
        let departure_time = match get_opt_text(lookup_field2(fields, "departure_time", "departure")) {
            Ok(x) => x,
            Err(e) => {
                return Err(e);
            },
        };
        let arrival_time = match get_opt_text(lookup_field2(fields, "arrival_time", "arrival")) {
            Ok(x) => x,
            Err(e) => {
                return Err(e);
            },
        };
        let platform = match get_opt_text(lookup_field(fields, "platform")) {
            Ok(x) => x,
            Err(e) => {
                return Err(e);
            },
        };
        let latitude = match get_text(lookup_field(fields, "latitude")) {
            Ok(x) => x,
            Err(e) => {
                return Err(e);
            },
        };
        let longitude = match get_text(lookup_field(fields, "longitude")) {
            Ok(x) => x,
            Err(e) => {
                return Err(e);
            },
        };
        let delay = match get_opt_i8(lookup_field(fields, "delay")) {
            Ok(x) => x,
            Err(e) => {
                return Err(e);
            },
        };
        let eta = match get_opt_text(lookup_field(fields, "eta")) {
            Ok(x) => x,
            Err(e) => {
                return Err(e);
            },
        };
        let etd = match get_opt_text(lookup_field(fields, "etd")) {
            Ok(x) => x,
            Err(e) => {
                return Err(e);
            },
        };
        Ok(
            Stopover {
                station,
                departure_time,
                arrival_time,
                platform,
                latitude,
                longitude,
                delay,
                eta,
                etd,
            },
        )
    }

    /// Writes the stopover back as a JSON object under the canonical key
    /// names; reading that object yields the same stopover.
    pub fn to_json(&self) -> (j: JsonValue)
        ensures
            stopover_of(j) == Some(self@),
    {
        let mut fields: Vec<(String, JsonValue)> = Vec::new();
        fields.push((String::from_str("station"), self.station.to_json()));
        fields.push((String::from_str("departure_time"), opt_text_json(&self.departure_time)));
        fields.push((String::from_str("arrival_time"), opt_text_json(&self.arrival_time)));
        fields.push((String::from_str("platform"), opt_text_json(&self.platform)));
        fields.push((String::from_str("latitude"), JsonValue::Str(self.latitude.clone())));
        fields.push((String::from_str("longitude"), JsonValue::Str(self.longitude.clone())));
        fields.push((String::from_str("delay"), opt_i8_json(self.delay)));
        fields.push((String::from_str("eta"), opt_text_json(&self.eta)));
        fields.push((String::from_str("etd"), opt_text_json(&self.etd)));
        proof {
            reveal_strlit("station");
            reveal_strlit("departure_time");
            reveal_strlit("arrival_time");
            reveal_strlit("platform");
            reveal_strlit("latitude");
            reveal_strlit("longitude");
            reveal_strlit("delay");
            reveal_strlit("eta");
            reveal_strlit("etd");
            let fs = fields@;
            assert(fs[0].0@ == "station"@);
            assert(fs[1].0@ == "departure_time"@);
            assert(fs[2].0@ == "arrival_time"@);
            assert(fs[3].0@ == "platform"@);
            assert(fs[4].0@ == "latitude"@);
            assert(fs[5].0@ == "longitude"@);
            assert(fs[6].0@ == "delay"@);
            assert(fs[7].0@ == "eta"@);
            assert(fs[8].0@ == "etd"@);
            assert("platform"@[0] == 'p' && "latitude"@[0] == 'l');
            assert("eta"@[2] == 'a' && "etd"@[2] == 'd');
            lemma_lookup_found(fs, 0, "station"@);
            lemma_lookup_found(fs, 1, "departure_time"@);
            lemma_lookup_found(fs, 2, "arrival_time"@);
            lemma_lookup_found(fs, 3, "platform"@);
            lemma_lookup_found(fs, 4, "latitude"@);
            lemma_lookup_found(fs, 5, "longitude"@);
            lemma_lookup_found(fs, 6, "delay"@);
            lemma_lookup_found(fs, 7, "eta"@);
            lemma_lookup_found(fs, 8, "etd"@);
        }
        JsonValue::Obj(fields)
    }
}

/// Mathematical shape of a train's detail view.
pub struct TrainModel {
    pub train_number: u32,
    pub delay: Option<i8>,
    pub occupancy: Option<u8>,
    pub latitude: Option<Seq<char>>,
    pub longitude: Option<Seq<char>>,
    pub status: Option<Seq<char>>,
    pub stops: Seq<StopoverModel>,
}

/// A train's detail view with its route.
#[derive(Debug, Clone, PartialEq)]
pub struct Train {
    pub train_number: u32,
    pub delay: Option<i8>,
    pub occupancy: Option<u8>,
    pub latitude: Option<String>,
    pub longitude: Option<String>,
    pub status: Option<String>,
    pub stops: Vec<Stopover>,
}

impl View for Train {
    type V = TrainModel;

    open spec fn view(&self) -> TrainModel {
        TrainModel {
            train_number: self.train_number,
            delay: self.delay,
            occupancy: self.occupancy,
            latitude: opt_str_view(self.latitude),
            longitude: opt_str_view(self.longitude),
            status: opt_str_view(self.status),
            stops: stopovers_view(self.stops@),
        }
    }
}

/// A required stopover-list field.
pub open spec fn stops_field_of(v: Option<JsonValue>) -> Option<Seq<StopoverModel>> {
    match v {
        Some(JsonValue::Arr(elems)) => stopovers_of(elems@),
        _ => None,
    }
}

/// The train detail an object's fields denote.
pub open spec fn train_of_fields(fs: Seq<(String, JsonValue)>) -> Option<TrainModel> {
    let number = u32_of(field2(fs, "train_number"@, "trainNumber"@));
    let delay = opt_i8_of(lookup(fs, "delay"@));
    let occupancy = opt_u8_of(lookup(fs, "occupancy"@));
    let latitude = opt_text_of(lookup(fs, "latitude"@));
    let longitude = opt_text_of(lookup(fs, "longitude"@));
    let status = opt_text_of(lookup(fs, "status"@));
    let stops = stops_field_of(field2(fs, "stops"@, "trainStops"@));
    if number is Some && delay is Some && occupancy is Some && latitude is Some && longitude
        is Some && status is Some && stops is Some {
        Some(
            TrainModel {
                train_number: number->Some_0,
                delay: delay->Some_0,
                occupancy: occupancy->Some_0,
                latitude: latitude->Some_0,
                longitude: longitude->Some_0,
                status: status->Some_0,
                stops: stops->Some_0,
            },
        )
    } else {
        None
    }
}

/// The train detail a JSON value denotes.
pub open spec fn train_of(v: JsonValue) -> Option<TrainModel> {
    match v {
        JsonValue::Obj(fields) => train_of_fields(fields@),
        _ => None,
    }
}

/// Reads a stopover list, keeping route order.
pub fn parse_stopover_list(elems: &Vec<JsonValue>) -> (r: Result<Vec<Stopover>, CoreError>)
    ensures
        match stopovers_of(elems@) {
            Some(m) => r matches Ok(v) && stopovers_view(v@) == m,
            None => r matches Err(e) && e == CoreError::Deserialization,
        },
{
    let mut out: Vec<Stopover> = Vec::new();
    let mut i: usize = 0;
    while i < elems.len()
        invariant
            0 <= i <= elems@.len(),
            stopovers_of(elems@.take(i as int)) == Some(stopovers_view(out@)),
        decreases elems@.len() - i,
    {
        let ghost prev = out@;
        match Stopover::from_json(&elems[i]) {
            Ok(s) => {
                out.push(s);
                proof {
                    assert(elems@.take(i as int + 1).drop_last() =~= elems@.take(i as int));
                    assert(elems@.take(i as int + 1).last() == elems@[i as int]);
                    assert(stopovers_view(out@) =~= stopovers_view(prev).push(out@.last()@));
                }
            },
            Err(_) => {
                proof {
                    lemma_stopovers_none(elems@, i as int);
                }
                return Err(CoreError::Deserialization);
            },
        }
        i = i + 1;
    }
    proof {
        assert(elems@.take(i as int) =~= elems@);
    }
    Ok(out)
}

/// Writes a stopover list in order; reading it back yields the same models.
pub fn stopover_list_to_json(stops: &Vec<Stopover>) -> (r: Vec<JsonValue>)
    ensures
        stopovers_of(r@) == Some(stopovers_view(stops@)),
{
    let mut out: Vec<JsonValue> = Vec::new();
    let mut i: usize = 0;
    while i < stops.len()
        invariant
            0 <= i <= stops@.len(),
            stopovers_of(out@) == Some(stopovers_view(stops@.take(i as int))),
        decreases stops@.len() - i,
    {
        let ghost prev = out@;
        out.push(stops[i].to_json());
        proof {
            assert(out@.drop_last() =~= prev);
            assert(stopovers_view(stops@.take(i as int + 1)) =~= stopovers_view(
                stops@.take(i as int),
            ).push(stops@[i as int]@));
        }
        i = i + 1;
    }
    proof {
        assert(stops@.take(i as int) =~= stops@);
    }
    out
}

impl Train {
    /// Reads a train detail out of a JSON object, accepting either key
    /// spelling per field; the stops keep their route order.
    pub fn from_json(v: &JsonValue) -> (r: Result<Train, CoreError>)
        ensures
            match train_of(*v) {
                Some(m) => r matches Ok(t) && t@ == m,
                None => r matches Err(e) && e == CoreError::Deserialization,
            },
    {
        let fields = match v {
            JsonValue::Obj(fields) => fields,
            _ => {
                return Err(CoreError::Deserialization);
            },
        };
        let train_number = match get_u32(lookup_field2(fields, "train_number", "trainNumber")) {
            Ok(x) => x,
            Err(e) => {
                return Err(e);
            },
        };
        let delay = match get_opt_i8(lookup_field(fields, "delay")) {
            Ok(x) => x,
            Err(e) => {
                return Err(e);
            },
        };
        let occupancy = match get_opt_u8(lookup_field(fields, "occupancy")) {
            Ok(x) => x,
            Err(e) => {
                return Err(e);
            },
        };
        let latitude = match get_opt_text(lookup_field(fields, "latitude")) {
            Ok(x) => x,
            Err(e) => {
                return Err(e);
            },
        };
        let longitude = match get_opt_text(lookup_field(fields, "longitude")) {
            Ok(x) => x,
            Err(e) => {
                return Err(e);
            },
        };
        let status = match get_opt_text(lookup_field(fields, "status")) {
            Ok(x) => x,
            Err(e) => {
                return Err(e);
            },
        };
        let stops = match lookup_field2(fields, "stops", "trainStops") {
            Some(x) => match x {
                JsonValue::Arr(elems) => match parse_stopover_list(elems) {
                    Ok(s) => s,
                    Err(e) => {
                        return Err(e);
                    },
                },
                _ => {
                    return Err(CoreError::Deserialization);
                },
            },
            None => {
                return Err(CoreError::Deserialization);
            },
        };
        Ok(Train { train_number, delay, occupancy, latitude, longitude, status, stops })
    }

    /// Writes the train detail back as a JSON object under the canonical
    /// key names; reading that object yields the same train, stops in the
    /// same order.
    pub fn to_json(&self) -> (j: JsonValue)
        ensures
            train_of(j) == Some(self@),
    {
        let mut fields: Vec<(String, JsonValue)> = Vec::new();
        fields.push((String::from_str("train_number"), JsonValue::Int(self.train_number as i64)));
        fields.push((String::from_str("delay"), opt_i8_json(self.delay)));
        fields.push((String::from_str("occupancy"), opt_u8_json(self.occupancy)));
        fields.push((String::from_str("latitude"), opt_text_json(&self.latitude)));
        fields.push((String::from_str("longitude"), opt_text_json(&self.longitude)));
        fields.push((String::from_str("status"), opt_text_json(&self.status)));
        fields.push((String::from_str("stops"), JsonValue::Arr(
            stopover_list_to_json(&self.stops),
        )));
        proof {
            reveal_strlit("train_number");
            reveal_strlit("delay");
            reveal_strlit("occupancy");
            reveal_strlit("latitude");
            reveal_strlit("longitude");
            reveal_strlit("status");
            reveal_strlit("stops");
            let fs = fields@;
            assert(fs[0].0@ == "train_number"@);
            assert(fs[1].0@ == "delay"@);
            assert(fs[2].0@ == "occupancy"@);
            assert(fs[3].0@ == "latitude"@);
            assert(fs[4].0@ == "longitude"@);
            assert(fs[5].0@ == "status"@);
            assert(fs[6].0@ == "stops"@);
            assert("occupancy"@[0] == 'o' && "longitude"@[0] == 'l');
            assert("delay"@[0] == 'd' && "stops"@[0] == 's');
            lemma_lookup_found(fs, 0, "train_number"@);
            lemma_lookup_found(fs, 1, "delay"@);
            lemma_lookup_found(fs, 2, "occupancy"@);
            lemma_lookup_found(fs, 3, "latitude"@);
            lemma_lookup_found(fs, 4, "longitude"@);
            lemma_lookup_found(fs, 5, "status"@);
            lemma_lookup_found(fs, 6, "stops"@);
        }
        JsonValue::Obj(fields)
    }
}

} // verus!
