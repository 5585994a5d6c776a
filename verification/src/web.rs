//! The models the web front-end reads out of the relay's responses. They
//! mirror the upstream models under the front-end's own field names, accept
//! the relay's canonical spelling as an alias, and are only ever parsed —
//! the front-end never writes them back.

use vstd::prelude::*;

use crate::error::CoreError;
use crate::json::{
    field2, get_opt_i8, get_opt_text, get_opt_u8, get_text, get_u32, lookup, lookup_field,
    lookup_field2, opt_i8_of, opt_str_view, opt_text_of, opt_u8_of, text_of, u32_of, JsonValue,
};

verus! {

/// Mathematical shape of a station as the front-end names it.
pub struct WebStationModel {
    pub id: Seq<char>,
    pub name: Seq<char>,
}

/// A station under the front-end's field names.
#[derive(Debug, Clone, PartialEq)]
pub struct Station {
    pub id: String,
    pub name: String,
}

impl View for Station {
    type V = WebStationModel;

    open spec fn view(&self) -> WebStationModel {
        WebStationModel { id: self.id@, name: self.name@ }
    }
}

/// The station an object denotes: `id` (or `code`) and `name` (or
/// `designation`), both strings.
pub open spec fn web_station_of(v: JsonValue) -> Option<WebStationModel> {
    match v {
        JsonValue::Obj(fields) => match (
            text_of(field2(fields@, "id"@, "code"@)),
            text_of(field2(fields@, "name"@, "designation"@)),
        ) {
            (Some(id), Some(name)) => Some(WebStationModel { id, name }),
            _ => None,
        },
        _ => None,
    }
}

/// Each element of a station list in order, or `None` where any fails.
pub open spec fn web_stations_of(elems: Seq<JsonValue>) -> Option<Seq<WebStationModel>>
    decreases elems.len(),
{
    if elems.len() == 0 {
        Some(Seq::empty())
    } else {
        match (web_stations_of(elems.drop_last()), web_station_of(elems.last())) {
            (Some(init), Some(last)) => Some(init.push(last)),
            _ => None,
        }
    }
}

pub open spec fn web_stations_view(v: Seq<Station>) -> Seq<WebStationModel> {
    v.map_values(|s: Station| s@)
}

proof fn lemma_web_stations_none(elems: Seq<JsonValue>, i: int)
    requires
        0 <= i < elems.len(),
        web_station_of(elems[i]) is None,
    ensures
        web_stations_of(elems) is None,
    decreases elems.len(),
{
    if i < elems.len() - 1 {
        assert(elems.drop_last()[i] == elems[i]);
        lemma_web_stations_none(elems.drop_last(), i);
    }
}

impl Station {
    /// Reads a station under the front-end's field names.
    pub fn from_json(v: &JsonValue) -> (r: Result<Station, CoreError>)
        ensures
            match web_station_of(*v) {
                Some(m) => r matches Ok(s) && s@ == m,
                None => r matches Err(e) && e == CoreError::Deserialization,
            },
    {
        match v {
            JsonValue::Obj(fields) => {
                let id = match get_text(lookup_field2(fields, "id", "code")) {
                    Ok(x) => x,
                    Err(e) => {
                        return Err(e);
                    },
                };
                let name = match get_text(lookup_field2(fields, "name", "designation")) {
                    Ok(x) => x,
                    Err(e) => {
                        return Err(e);
                    },
                };
                Ok(Station { id, name })
            },
            _ => Err(CoreError::Deserialization),
        }
    }
}

/// Reads a station list, keeping the relay's order.
pub fn parse_web_station_list(elems: &Vec<JsonValue>) -> (r: Result<Vec<Station>, CoreError>)
    ensures
        match web_stations_of(elems@) {
            Some(m) => r matches Ok(v) && web_stations_view(v@) == m,
            None => r matches Err(e) && e == CoreError::Deserialization,
        },
{
    let mut out: Vec<Station> = Vec::new();
    let mut i: usize = 0;
    while i < elems.len()
        invariant
            0 <= i <= elems@.len(),
            web_stations_of(elems@.take(i as int)) == Some(web_stations_view(out@)),
        decreases elems@.len() - i,
    {
        let ghost prev = out@;
        match Station::from_json(&elems[i]) {
            Ok(s) => {
                out.push(s);
                proof {
                    assert(elems@.take(i as int + 1).drop_last() =~= elems@.take(i as int));
                    assert(elems@.take(i as int + 1).last() == elems@[i as int]);
                    assert(web_stations_view(out@) =~= web_stations_view(prev).push(out@.last()@));
                }
            },
            Err(_) => {
                proof {
                    lemma_web_stations_none(elems@, i as int);
                }
                return Err(CoreError::Deserialization);
            },
        }
        i = i + 1;
    }
    proof {
        assert(elems@.take(i as int) =~= elems@);
    }
    Ok(out)
}

/// Mathematical shape of a timetable entry as the front-end reads it.
pub struct WebTimetableModel {
    pub delay: Option<i8>,
    pub train_origin: WebStationModel,
    pub train_destination: WebStationModel,
    pub departure_time: Option<Seq<char>>,
    pub arrival_time: Option<Seq<char>>,
    pub train_number: u32,
    pub platform: Option<Seq<char>>,
    pub occupancy: Option<u8>,
    pub eta: Option<Seq<char>>,
    pub etd: Option<Seq<char>>,
}

/// A timetable entry under the front-end's field names.
#[derive(Debug, Clone, PartialEq)]
pub struct Timetable {
    pub delay: Option<i8>,
    pub train_origin: Station,
    pub train_destination: Station,
    pub departure_time: Option<String>,
    pub arrival_time: Option<String>,
    pub train_number: u32,
    pub platform: Option<String>,
    pub occupancy: Option<u8>,
    pub eta: Option<String>,
    pub etd: Option<String>,
}

impl View for Timetable {
    type V = WebTimetableModel;

    open spec fn view(&self) -> WebTimetableModel {
        WebTimetableModel {
            delay: self.delay,
            train_origin: self.train_origin@,
            train_destination: self.train_destination@,
            departure_time: opt_str_view(self.departure_time),
            arrival_time: opt_str_view(self.arrival_time),
            train_number: self.train_number,
            platform: opt_str_view(self.platform),
            occupancy: self.occupancy,
            eta: opt_str_view(self.eta),
            etd: opt_str_view(self.etd),
        }
    }
}

/// A required station field under the front-end's reading.
pub open spec fn web_station_field_of(v: Option<JsonValue>) -> Option<WebStationModel> {
    match v {
        Some(x) => web_station_of(x),
        None => None,
    }
}

/// The timetable entry an object's fields denote.
pub open spec fn web_timetable_of_fields(fs: Seq<(String, JsonValue)>) -> Option<
    WebTimetableModel,
> {
    let delay = opt_i8_of(lookup(fs, "delay"@));
    let origin = web_station_field_of(field2(fs, "train_origin"@, "trainOrigin"@));
    let destination = web_station_field_of(field2(fs, "train_destination"@, "trainDestination"@));
    let departure = opt_text_of(field2(fs, "departure_time"@, "departureTime"@));
    let arrival = opt_text_of(field2(fs, "arrival_time"@, "arrivalTime"@));
    let number = u32_of(field2(fs, "train_number"@, "trainNumber"@));
    let platform = opt_text_of(lookup(fs, "platform"@));
    let occupancy = opt_u8_of(lookup(fs, "occupancy"@));
    let eta = opt_text_of(lookup(fs, "eta"@));
    let etd = opt_text_of(lookup(fs, "etd"@));
    if delay is Some && origin is Some && destination is Some && departure is Some && arrival
        is Some && number is Some && platform is Some && occupancy is Some && eta is Some && etd
        is Some {
        Some(
            WebTimetableModel {
                delay: delay->Some_0,
                train_origin: origin->Some_0,
                train_destination: destination->Some_0,
                departure_time: departure->Some_0,
                arrival_time: arrival->Some_0,
                train_number: number->Some_0,
                platform: platform->Some_0,
                occupancy: occupancy->Some_0,
                eta: eta->Some_0,
                etd: etd->Some_0,
            },
        )
    } else {
        None
    }
}

pub open spec fn web_timetable_of(v: JsonValue) -> Option<WebTimetableModel> {
    match v {
        JsonValue::Obj(fields) => web_timetable_of_fields(fields@),
        _ => None,
    }
}

/// Each element of a timetable list in order, or `None` where any fails.
pub open spec fn web_timetables_of(elems: Seq<JsonValue>) -> Option<Seq<WebTimetableModel>>
    decreases elems.len(),
{
    if elems.len() == 0 {
        Some(Seq::empty())
    } else {
        match (web_timetables_of(elems.drop_last()), web_timetable_of(elems.last())) {
            (Some(init), Some(last)) => Some(init.push(last)),
            _ => None,
        }
    }
}

pub open spec fn web_timetables_view(v: Seq<Timetable>) -> Seq<WebTimetableModel> {
    v.map_values(|t: Timetable| t@)
}

proof fn lemma_web_timetables_none(elems: Seq<JsonValue>, i: int)
    requires
        0 <= i < elems.len(),
        web_timetable_of(elems[i]) is None,
    ensures
        web_timetables_of(elems) is None,
    decreases elems.len(),
{
    if i < elems.len() - 1 {
        assert(elems.drop_last()[i] == elems[i]);
        lemma_web_timetables_none(elems.drop_last(), i);
    }
}

impl Timetable {
    /// Reads one timetable entry under the front-end's field names.
    pub fn from_json(v: &JsonValue) -> (r: Result<Timetable, CoreError>)
        ensures
            match web_timetable_of(*v) {
                Some(m) => r matches Ok(t) && t@ == m,
                None => r matches Err(e) && e == CoreError::Deserialization,
            },
    {
        let fields = match v {
            JsonValue::Obj(fields) => fields,
            _ => {
                return Err(CoreError::Deserialization);
            },
        };
        let delay = match get_opt_i8(lookup_field(fields, "delay")) {
            Ok(x) => x,
            Err(e) => {
                return Err(e);
            },
        };
        let train_origin = match lookup_field2(fields, "train_origin", "trainOrigin") {
            Some(x) => match Station::from_json(x) {
                Ok(s) => s,
                Err(e) => {
                    return Err(e);
                },
            },
            None => {
                return Err(CoreError::Deserialization);
            },
        };
        let train_destination = match lookup_field2(fields, "train_destination", "trainDestination") {
            Some(x) => match Station::from_json(x) {
                Ok(s) => s,
                Err(e) => {
                    return Err(e);
                },
            },
            None => {
                return Err(CoreError::Deserialization);
            },
        };
        let departure_time = match get_opt_text(lookup_field2(fields, "departure_time", "departureTime")) {
            Ok(x) => x,
            Err(e) => {
                return Err(e);
            },
        };
        let arrival_time = match get_opt_text(lookup_field2(fields, "arrival_time", "arrivalTime")) {
            Ok(x) => x,
            Err(e) => {
                return Err(e);
            },
        };
        let train_number = match get_u32(lookup_field2(fields, "train_number", "trainNumber")) {
            Ok(x) => x,
            Err(e) => {
                return Err(e);
            },
        };
        let platform = match get_opt_text(lookup_field(fields, "platform")) {
            Ok(x) => x,
            Err(e) => {
                return Err(e);
            },
        };
        let occupancy = match get_opt_u8(lookup_field(fields, "occupancy")) {
            Ok(x) => x,
            Err(e) => {
                return Err(e);
            },
        };
        let eta = match get_opt_text(lookup_field(fields, "eta")) {
            Ok(x) => x,
            Err(e) => {
                return Err(e);
            },
        };
        let etd = match get_opt_text(lookup_field(fields, "etd")) {
            Ok(x) => x,
            Err(e) => {
                return Err(e);
            },
        };
        Ok(
            Timetable {
                delay,
                train_origin,
                train_destination,
                departure_time,
                arrival_time,
                train_number,
                platform,
                occupancy,
                eta,
                etd,
            },
        )
    }
}

/// Reads a timetable list, keeping the relay's order.
pub fn parse_web_timetable_list(elems: &Vec<JsonValue>) -> (r: Result<Vec<Timetable>, CoreError>)
    ensures
        match web_timetables_of(elems@) {
            Some(m) => r matches Ok(v) && web_timetables_view(v@) == m,
            None => r matches Err(e) && e == CoreError::Deserialization,
        },
{
    let mut out: Vec<Timetable> = Vec::new();
    let mut i: usize = 0;
    while i < elems.len()
        invariant
            0 <= i <= elems@.len(),
            web_timetables_of(elems@.take(i as int)) == Some(web_timetables_view(out@)),
        decreases elems@.len() - i,
    {
        let ghost prev = out@;
        match Timetable::from_json(&elems[i]) {
            Ok(t) => {
                out.push(t);
                proof {
                    assert(elems@.take(i as int + 1).drop_last() =~= elems@.take(i as int));
                    assert(elems@.take(i as int + 1).last() == elems@[i as int]);
                    assert(web_timetables_view(out@) =~= web_timetables_view(prev).push(
                        out@.last()@,
                    ));
                }
            },
            Err(_) => {
                proof {
                    lemma_web_timetables_none(elems@, i as int);
                }
                return Err(CoreError::Deserialization);
            },
        }
        i = i + 1;
    }
    proof {
        assert(elems@.take(i as int) =~= elems@);
    }
    Ok(out)
}

/// Mathematical shape of a stopover as the front-end reads it.
pub struct WebStopoverModel {
    pub station: WebStationModel,
    pub departure_time: Option<Seq<char>>,
    pub arrival_time: Option<Seq<char>>,
    pub platform: Option<Seq<char>>,
    pub latitude: Seq<char>,
    pub longitude: Seq<char>,
    pub delay: Option<i8>,
    pub eta: Option<Seq<char>>,
    pub etd: Option<Seq<char>>,
}

/// One stop of a train's route under the front-end's field names.
#[derive(Debug, Clone, PartialEq)]
pub struct Stopover {
    pub station: Station,
    pub departure_time: Option<String>,
    pub arrival_time: Option<String>,
    pub platform: Option<String>,
    pub latitude: String,
    pub longitude: String,
    pub delay: Option<i8>,
    pub eta: Option<String>,
    pub etd: Option<String>,
}

impl View for Stopover {
    type V = WebStopoverModel;

    open spec fn view(&self) -> WebStopoverModel {
        WebStopoverModel {
            station: self.station@,
            departure_time: opt_str_view(self.departure_time),
            arrival_time: opt_str_view(self.arrival_time),
            platform: opt_str_view(self.platform),
            latitude: self.latitude@,
            longitude: self.longitude@,
            delay: self.delay,
            eta: opt_str_view(self.eta),
            etd: opt_str_view(self.etd),
        }
    }
}

/// The stopover an object's fields denote.
pub open spec fn web_stopover_of_fields(fs: Seq<(String, JsonValue)>) -> Option<WebStopoverModel> {
    let station = web_station_field_of(lookup(fs, "station"@));
    let departure = opt_text_of(lookup(fs, "departure_time"@));
    let arrival = opt_text_of(lookup(fs, "arrival_time"@));
    let platform = opt_text_of(lookup(fs, "platform"@));
    let latitude = text_of(lookup(fs, "latitude"@));
    let longitude = text_of(lookup(fs, "longitude"@));
    let delay = opt_i8_of(lookup(fs, "delay"@));
    let eta = opt_text_of(lookup(fs, "eta"@));
    let etd = opt_text_of(lookup(fs, "etd"@));
    if station is Some && departure is Some && arrival is Some && platform is Some && latitude
        is Some && longitude is Some && delay is Some && eta is Some && etd is Some {
        Some(
            WebStopoverModel {
                station: station->Some_0,
                departure_time: departure->Some_0,
                arrival_time: arrival->Some_0,
                platform: platform->Some_0,
                latitude: latitude->Some_0,
                longitude: longitude->Some_0,
                delay: delay->Some_0,
                eta: eta->Some_0,
                etd: etd->Some_0,
            },
        )
    } else {
        None
    }
}

pub open spec fn web_stopover_of(v: JsonValue) -> Option<WebStopoverModel> {
    match v {
        JsonValue::Obj(fields) => web_stopover_of_fields(fields@),
        _ => None,
    }
}

/// Each element of a stopover list in order, or `None` where any fails.
pub open spec fn web_stopovers_of(elems: Seq<JsonValue>) -> Option<Seq<WebStopoverModel>>
    decreases elems.len(),
{
    if elems.len() == 0 {
        Some(Seq::empty())
    } else {
        match (web_stopovers_of(elems.drop_last()), web_stopover_of(elems.last())) {
            (Some(init), Some(last)) => Some(init.push(last)),
            _ => None,
        }
    }
}

pub open spec fn web_stopovers_view(v: Seq<Stopover>) -> Seq<WebStopoverModel> {
    v.map_values(|s: Stopover| s@)
}

proof fn lemma_web_stopovers_none(elems: Seq<JsonValue>, i: int)
    requires
        0 <= i < elems.len(),
        web_stopover_of(elems[i]) is None,
    ensures
        web_stopovers_of(elems) is None,
    decreases elems.len(),
{
    if i < elems.len() - 1 {
        assert(elems.drop_last()[i] == elems[i]);
        lemma_web_stopovers_none(elems.drop_last(), i);
    }
}

impl Stopover {
    /// Reads one stopover under the front-end's field names.
    pub fn from_json(v: &JsonValue) -> (r: Result<Stopover, CoreError>)
        ensures
            match web_stopover_of(*v) {
                Some(m) => r matches Ok(s) && s@ == m,
                None => r matches Err(e) && e == CoreError::Deserialization,
            },
    {
        let fields = match v {
            JsonValue::Obj(fields) => fields,
            _ => {
                return Err(CoreError::Deserialization);
            },
        };
        let station = match lookup_field(fields, "station") {
            Some(x) => match Station::from_json(x) {
                Ok(s) => s,
                Err(e) => {
                    return Err(e);
                },
            },
            None => {
                return Err(CoreError::Deserialization);
            },
        };
        let departure_time = match get_opt_text(lookup_field(fields, "departure_time")) {
            Ok(x) => x,
            Err(e) => {
                return Err(e);
            },
        };
        let arrival_time = match get_opt_text(lookup_field(fields, "arrival_time")) {
            Ok(x) => x,
            Err(e) => {
                return Err(e);
            },
        };
        let platform = match get_opt_text(lookup_field(fields, "platform")) {
            Ok(x) => x,
            Err(e) => {
                return Err(e);
            },
        };
        let latitude = match get_text(lookup_field(fields, "latitude")) {
            Ok(x) => x,
            Err(e) => {
                return Err(e);
            },
        };
        let longitude = match get_text(lookup_field(fields, "longitude")) {
            Ok(x) => x,
            Err(e) => {
                return Err(e);
            },
        };
        let delay = match get_opt_i8(lookup_field(fields, "delay")) {
            Ok(x) => x,
            Err(e) => {
                return Err(e);
            },
        };
        let eta = match get_opt_text(lookup_field(fields, "eta")) {
            Ok(x) => x,
            Err(e) => {
                return Err(e);
            },
        };
        let etd = match get_opt_text(lookup_field(fields, "etd")) {
            Ok(x) => x,
            Err(e) => {
                return Err(e);
            },
        };
        Ok(
            Stopover {
                station,
                departure_time,
                arrival_time,
                platform,
                latitude,
                longitude,
                delay,
                eta,
                etd,
            },
        )
    }
}

/// Reads a stopover list, keeping route order.
pub fn parse_web_stopover_list(elems: &Vec<JsonValue>) -> (r: Result<Vec<Stopover>, CoreError>)
    ensures
        match web_stopovers_of(elems@) {
            Some(m) => r matches Ok(v) && web_stopovers_view(v@) == m,
            None => r matches Err(e) && e == CoreError::Deserialization,
        },
{
    let mut out: Vec<Stopover> = Vec::new();
    let mut i: usize = 0;
    while i < elems.len()
        invariant
            0 <= i <= elems@.len(),
            web_stopovers_of(elems@.take(i as int)) == Some(web_stopovers_view(out@)),
        decreases elems@.len() - i,
    {
        let ghost prev = out@;
        match Stopover::from_json(&elems[i]) {
            Ok(s) => {
                out.push(s);
                proof {
                    assert(elems@.take(i as int + 1).drop_last() =~= elems@.take(i as int));
                    assert(elems@.take(i as int + 1).last() == elems@[i as int]);
                    assert(web_stopovers_view(out@) =~= web_stopovers_view(prev).push(
                        out@.last()@,
                    ));
                }
            },
            Err(_) => {
                proof {
                    lemma_web_stopovers_none(elems@, i as int);
                }
                return Err(CoreError::Deserialization);
            },
        }
        i = i + 1;
    }
    proof {
        assert(elems@.take(i as int) =~= elems@);
    }
    Ok(out)
}

/// Mathematical shape of a train detail as the front-end reads it.
pub struct WebTrainDetailsModel {
    pub id: u32,
    pub delay: Option<i8>,
    pub occupancy: Option<u8>,
    pub latitude: Option<Seq<char>>,
    pub longitude: Option<Seq<char>>,
    pub status: Option<Seq<char>>,
    pub stops: Option<Seq<WebStopoverModel>>,
}

/// A train detail under the front-end's field names; the route may be
/// absent entirely.
#[derive(Debug, Clone, PartialEq)]
pub struct TrainDetails {
    pub id: u32,
    pub delay: Option<i8>,
    pub occupancy: Option<u8>,
    pub latitude: Option<String>,
    pub longitude: Option<String>,
    pub status: Option<String>,
    pub stops: Option<Vec<Stopover>>,
}

impl View for TrainDetails {
    type V = WebTrainDetailsModel;

    open spec fn view(&self) -> WebTrainDetailsModel {
        WebTrainDetailsModel {
            id: self.id,
            delay: self.delay,
            occupancy: self.occupancy,
            latitude: opt_str_view(self.latitude),
            longitude: opt_str_view(self.longitude),
            status: opt_str_view(self.status),
            stops: match self.stops {
                Some(v) => Some(web_stopovers_view(v@)),
                None => None,
            },
        }
    }
}

/// An optional stopover-list field: absence and null both mean unknown.
pub open spec fn web_opt_stops_of(v: Option<JsonValue>) -> Option<
    Option<Seq<WebStopoverModel>>,
> {
    match v {
        None => Some(None),
        Some(JsonValue::Null) => Some(None),
        Some(JsonValue::Arr(elems)) => match web_stopovers_of(elems@) {
            Some(s) => Some(Some(s)),
            None => None,
        },
        Some(_) => None,
    }
}

/// The train detail an object's fields denote: the id under `id` or
/// `train_number`, the route optional.
pub open spec fn web_train_details_of_fields(fs: Seq<(String, JsonValue)>) -> Option<
    WebTrainDetailsModel,
> {
    let id = u32_of(field2(fs, "id"@, "train_number"@));
    let delay = opt_i8_of(lookup(fs, "delay"@));
    let occupancy = opt_u8_of(lookup(fs, "occupancy"@));
    let latitude = opt_text_of(lookup(fs, "latitude"@));
    let longitude = opt_text_of(lookup(fs, "longitude"@));
    let status = opt_text_of(lookup(fs, "status"@));
    let stops = web_opt_stops_of(lookup(fs, "stops"@));
    if id is Some && delay is Some && occupancy is Some && latitude is Some && longitude is Some
        && status is Some && stops is Some {
        Some(
            WebTrainDetailsModel {
                id: id->Some_0,
                delay: delay->Some_0,
                occupancy: occupancy->Some_0,
                latitude: latitude->Some_0,
                longitude: longitude->Some_0,
                status: status->Some_0,
                stops: stops->Some_0,
            },
        )
    } else {
        None
    }
}

pub open spec fn web_train_details_of(v: JsonValue) -> Option<WebTrainDetailsModel> {
    match v {
        JsonValue::Obj(fields) => web_train_details_of_fields(fields@),
        _ => None,
    }
}

impl TrainDetails {
    /// Reads a train detail under the front-end's field names.
    pub fn from_json(v: &JsonValue) -> (r: Result<TrainDetails, CoreError>)
        ensures
            match web_train_details_of(*v) {
                Some(m) => r matches Ok(t) && t@ == m,
                None => r matches Err(e) && e == CoreError::Deserialization,
            },
    {
        let fields = match v {
            JsonValue::Obj(fields) => fields,
            _ => {
                return Err(CoreError::Deserialization);
            },
        };
        let id = match get_u32(lookup_field2(fields, "id", "train_number")) {
            Ok(x) => x,
            Err(e) => {
                return Err(e);
            },
        };
        let delay = match get_opt_i8(lookup_field(fields, "delay")) {
            Ok(x) => x,
            Err(e) => {
                return Err(e);
            },
        };
        let occupancy = match get_opt_u8(lookup_field(fields, "occupancy")) {
            Ok(x) => x,
            Err(e) => {
                return Err(e);
            },
        };
        let latitude = match get_opt_text(lookup_field(fields, "latitude")) {
            Ok(x) => x,
            Err(e) => {
                return Err(e);
            },
        };
        let longitude = match get_opt_text(lookup_field(fields, "longitude")) {
            Ok(x) => x,
            Err(e) => {
                return Err(e);
            },
        };
        let status = match get_opt_text(lookup_field(fields, "status")) {
            Ok(x) => x,
            Err(e) => {
                return Err(e);
            },
        };
        let stops = match lookup_field(fields, "stops") {
            None => None,
            Some(JsonValue::Null) => None,
            Some(JsonValue::Arr(elems)) => match parse_web_stopover_list(elems) {
                Ok(s) => Some(s),
                Err(e) => {
                    return Err(e);
                },
            },
            Some(_) => {
                return Err(CoreError::Deserialization);
            },
        };
        Ok(TrainDetails { id, delay, occupancy, latitude, longitude, status, stops })
    }
}

/// The relay's station-search body: the stations under `data`.
pub open spec fn web_station_response_of(v: JsonValue) -> Option<Seq<WebStationModel>> {
    match v {
        JsonValue::Obj(fields) => match lookup(fields@, "data"@) {
            Some(JsonValue::Arr(elems)) => web_stations_of(elems@),
            _ => None,
        },
        _ => None,
    }
}

/// The station-search body the front-end reads from the relay.
#[derive(Debug, Clone, PartialEq)]
pub struct StationResponse {
    pub data: Vec<Station>,
}

impl View for StationResponse {
    type V = Seq<WebStationModel>;

    open spec fn view(&self) -> Seq<WebStationModel> {
        web_stations_view(self.data@)
    }
}

impl StationResponse {
    /// Reads a relay station-search body.
    pub fn from_json(v: &JsonValue) -> (r: Result<StationResponse, CoreError>)
        ensures
            match web_station_response_of(*v) {
                Some(m) => r matches Ok(s) && s@ == m,
                None => r matches Err(e) && e == CoreError::Deserialization,
            },
    {
        match v {
            JsonValue::Obj(fields) => match lookup_field(fields, "data") {
                Some(JsonValue::Arr(elems)) => match parse_web_station_list(elems) {
                    Ok(stations) => Ok(StationResponse { data: stations }),
                    Err(e) => Err(e),
                },
                _ => Err(CoreError::Deserialization),
            },
            _ => Err(CoreError::Deserialization),
        }
    }
}

/// The relay's timetable body: the entries under `data`.
pub open spec fn web_stopover_response_of(v: JsonValue) -> Option<Seq<WebTimetableModel>> {
    match v {
        JsonValue::Obj(fields) => match lookup(fields@, "data"@) {
            Some(JsonValue::Arr(elems)) => web_timetables_of(elems@),
            _ => None,
        },
        _ => None,
    }
}

/// The timetable body the front-end reads from the relay.
#[derive(Debug, Clone, PartialEq)]
pub struct StopoverResponse {
    pub data: Vec<Timetable>,
}

impl View for StopoverResponse {
    type V = Seq<WebTimetableModel>;

    open spec fn view(&self) -> Seq<WebTimetableModel> {
        web_timetables_view(self.data@)
    }
}

impl StopoverResponse {
    /// Reads a relay timetable body.
    pub fn from_json(v: &JsonValue) -> (r: Result<StopoverResponse, CoreError>)
        ensures
            match web_stopover_response_of(*v) {
                Some(m) => r matches Ok(s) && s@ == m,
                None => r matches Err(e) && e == CoreError::Deserialization,
            },
    {
        match v {
            JsonValue::Obj(fields) => match lookup_field(fields, "data") {
                Some(JsonValue::Arr(elems)) => match parse_web_timetable_list(elems) {
                    Ok(entries) => Ok(StopoverResponse { data: entries }),
                    Err(e) => Err(e),
                },
                _ => Err(CoreError::Deserialization),
            },
            _ => Err(CoreError::Deserialization),
        }
    }
}

/// The relay's train-detail body: the detail under `data`.
pub open spec fn web_train_details_response_of(v: JsonValue) -> Option<WebTrainDetailsModel> {
    match v {
        JsonValue::Obj(fields) => match lookup(fields@, "data"@) {
            Some(d) => web_train_details_of(d),
            None => None,
        },
        _ => None,
    }
}

/// The train-detail body the front-end reads from the relay.
#[derive(Debug, Clone, PartialEq)]
pub struct TrainDetailsResponse {
    pub data: TrainDetails,
}

impl View for TrainDetailsResponse {
    type V = WebTrainDetailsModel;

    open spec fn view(&self) -> WebTrainDetailsModel {
        self.data@
    }
}

impl TrainDetailsResponse {
    /// Reads a relay train-detail body.
    pub fn from_json(v: &JsonValue) -> (r: Result<TrainDetailsResponse, CoreError>)
        ensures
            match web_train_details_response_of(*v) {
                Some(m) => r matches Ok(t) && t@ == m,
                None => r matches Err(e) && e == CoreError::Deserialization,
            },
    {
        match v {
            JsonValue::Obj(fields) => match lookup_field(fields, "data") {
                Some(d) => match TrainDetails::from_json(d) {
                    Ok(t) => Ok(TrainDetailsResponse { data: t }),
                    Err(e) => Err(e),
                },
                None => Err(CoreError::Deserialization),
            },
            _ => Err(CoreError::Deserialization),
        }
    }
}

} // verus!
