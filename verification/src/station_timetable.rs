//! One scheduled train passing a queried station, as the timetable endpoint
//! returns it: every optional field may be absent or null, and absence means
//! unknown, never zero or empty.

use vstd::prelude::*;
use vstd::string::*;

use crate::error::CoreError;
use crate::json::{
    field2, get_opt_i8, get_opt_text, get_opt_u8, get_u32, lemma_lookup_found, lookup,
    lookup_field, lookup_field2, opt_i8_of, opt_str_view, opt_text_of, opt_u8_of, u32_of,
    JsonValue,
};
use crate::station::{station_of, Station, StationModel};

verus! {

/// Mathematical shape of a timetable entry.
pub struct TimetableModel {
    pub delay: Option<i8>,
    pub train_origin: StationModel,
    pub train_destination: StationModel,
    pub departure_time: Option<Seq<char>>,
    pub arrival_time: Option<Seq<char>>,
    pub train_number: u32,
    pub platform: Option<Seq<char>>,
    pub occupancy: Option<u8>,
    pub eta: Option<Seq<char>>,
    pub etd: Option<Seq<char>>,
}

/// One scheduled train transit through a queried station.
#[derive(Debug, Clone, PartialEq)]
pub struct Timetable {
    pub delay: Option<i8>,
    pub train_origin: Station,
    pub train_destination: Station,
    pub departure_time: Option<String>,
    pub arrival_time: Option<String>,
    pub train_number: u32,
    pub platform: Option<String>,
    pub occupancy: Option<u8>,
    pub eta: Option<String>,
    pub etd: Option<String>,
}

impl View for Timetable {
    type V = TimetableModel;

    open spec fn view(&self) -> TimetableModel {
        TimetableModel {
            delay: self.delay,
            train_origin: self.train_origin@,
            train_destination: self.train_destination@,
            departure_time: opt_str_view(self.departure_time),
            arrival_time: opt_str_view(self.arrival_time),
            train_number: self.train_number,
            platform: opt_str_view(self.platform),
            occupancy: self.occupancy,
            eta: opt_str_view(self.eta),
            etd: opt_str_view(self.etd),
        }
    }
}

/// A required station field.
pub open spec fn station_field_of(v: Option<JsonValue>) -> Option<StationModel> {
    match v {
        Some(x) => station_of(x),
        None => None,
    }
}

/// The timetable entry an object's fields denote, each field accepted under
/// its canonical name or its upstream alias.
pub open spec fn timetable_of_fields(fs: Seq<(String, JsonValue)>) -> Option<TimetableModel> {
    let delay = opt_i8_of(lookup(fs, "delay"@));
    let origin = station_field_of(field2(fs, "train_origin"@, "trainOrigin"@));
    let destination = station_field_of(field2(fs, "train_destination"@, "trainDestination"@));
    let departure = opt_text_of(field2(fs, "departure_time"@, "departureTime"@));
    let arrival = opt_text_of(field2(fs, "arrival_time"@, "arrivalTime"@));
    let number = u32_of(field2(fs, "train_number"@, "trainNumber"@));
    let platform = opt_text_of(lookup(fs, "platform"@));
    let occupancy = opt_u8_of(lookup(fs, "occupancy"@));
    let eta = opt_text_of(lookup(fs, "eta"@));
    let etd = opt_text_of(lookup(fs, "etd"@));
    if delay is Some && origin is Some && destination is Some && departure is Some && arrival
        is Some && number is Some && platform is Some && occupancy is Some && eta is Some && etd
        is Some {
        Some(
            TimetableModel {
                delay: delay->Some_0,
                train_origin: origin->Some_0,
                train_destination: destination->Some_0,
                departure_time: departure->Some_0,
                arrival_time: arrival->Some_0,
                train_number: number->Some_0,
                platform: platform->Some_0,
                occupancy: occupancy->Some_0,
                eta: eta->Some_0,
                etd: etd->Some_0,
            },
        )
    } else {
        None
    }
}

/// The timetable entry a JSON value denotes.
pub open spec fn timetable_of(v: JsonValue) -> Option<TimetableModel> {
    match v {
        JsonValue::Obj(fields) => timetable_of_fields(fields@),
        _ => None,
    }
}

/// Each element of a timetable list in order, or `None` where any fails.
pub open spec fn timetables_of(elems: Seq<JsonValue>) -> Option<Seq<TimetableModel>>
    decreases elems.len(),
{
    if elems.len() == 0 {
        Some(Seq::empty())
    } else {
        match (timetables_of(elems.drop_last()), timetable_of(elems.last())) {
            (Some(init), Some(last)) => Some(init.push(last)),
            _ => None,
        }
    }
}

/// A sequence of timetable entries as their models.
pub open spec fn timetables_view(v: Seq<Timetable>) -> Seq<TimetableModel> {
    v.map_values(|t: Timetable| t@)
}

proof fn lemma_timetables_none(elems: Seq<JsonValue>, i: int)
    requires
        0 <= i < elems.len(),
        timetable_of(elems[i]) is None,
    ensures
        timetables_of(elems) is None,
    decreases elems.len(),
{
    if i < elems.len() - 1 {
        assert(elems.drop_last()[i] == elems[i]);
        lemma_timetables_none(elems.drop_last(), i);
    }
}

impl Timetable {
    /// Reads one timetable entry out of a JSON object, accepting either key
    /// spelling per field; any missing required field or ill-typed value
    /// fails the whole parse.
    pub fn from_json(v: &JsonValue) -> (r: Result<Timetable, CoreError>)
        ensures
            match timetable_of(*v) {
                Some(m) => r matches Ok(t) && t@ == m,
                None => r matches Err(e) && e == CoreError::Deserialization,
            },
    {
        let fields = match v {
            JsonValue::Obj(fields) => fields,
            _ => {
                return Err(CoreError::Deserialization);
            },
        };
        let delay = match get_opt_i8(lookup_field(fields, "delay")) {
            Ok(x) => x,
            Err(e) => {
                return Err(e);
            },
        };
        let train_origin = match lookup_field2(fields, "train_origin", "trainOrigin") {
            Some(x) => match Station::from_json(x) {
                Ok(s) => s,
                Err(e) => {
                    return Err(e);
                },
            },
            None => {
                return Err(CoreError::Deserialization);
            },
        };
        let train_destination = match lookup_field2(fields, "train_destination", "trainDestination") {
            Some(x) => match Station::from_json(x) {
                Ok(s) => s,
                Err(e) => {
                    return Err(e);
                },
            },
            None => {
                return Err(CoreError::Deserialization);
            },
        };
        let departure_time = match get_opt_text(lookup_field2(fields, "departure_time", "departureTime")) {
            Ok(x) => x,
            Err(e) => {
                return Err(e);
            },
        };
        let arrival_time = match get_opt_text(lookup_field2(fields, "arrival_time", "arrivalTime")) {
            Ok(x) => x,
            Err(e) => {
                return Err(e);
            },
        };
        let train_number = match get_u32(lookup_field2(fields, "train_number", "trainNumber")) {
            Ok(x) => x,
            Err(e) => {
                return Err(e);
            },
        };
        let platform = match get_opt_text(lookup_field(fields, "platform")) {
            Ok(x) => x,
            Err(e) => {
                return Err(e);
            },
        };
        let occupancy = match get_opt_u8(lookup_field(fields, "occupancy")) {
            Ok(x) => x,
            Err(e) => {
                return Err(e);
            },
        };
        let eta = match get_opt_text(lookup_field(fields, "eta")) {
            Ok(x) => x,
            Err(e) => {
                return Err(e);
            },
        };
        let etd = match get_opt_text(lookup_field(fields, "etd")) {
            Ok(x) => x,
            Err(e) => {
                return Err(e);
            },
        };
        Ok(
            Timetable {
                delay,
                train_origin,
                train_destination,
                departure_time,
                arrival_time,
                train_number,
                platform,
                occupancy,
                eta,
                etd,
            },
        )
    }

    /// Writes the entry back as a JSON object under the canonical key
    /// names, with `null` for every unknown optional field; reading that
    /// object yields the same entry.
    pub fn to_json(&self) -> (j: JsonValue)
        ensures
            timetable_of(j) == Some(self@),
    {
        let mut fields: Vec<(String, JsonValue)> = Vec::new();
        fields.push((String::from_str("delay"), opt_i8_json(self.delay)));
        fields.push((String::from_str("train_origin"), self.train_origin.to_json()));
        fields.push((String::from_str("train_destination"), self.train_destination.to_json()));
        fields.push((String::from_str("departure_time"), opt_text_json(&self.departure_time)));
        fields.push((String::from_str("arrival_time"), opt_text_json(&self.arrival_time)));
        fields.push((String::from_str("train_number"), JsonValue::Int(self.train_number as i64)));
        fields.push((String::from_str("platform"), opt_text_json(&self.platform)));
        fields.push((String::from_str("occupancy"), opt_u8_json(self.occupancy)));
        fields.push((String::from_str("eta"), opt_text_json(&self.eta)));
        fields.push((String::from_str("etd"), opt_text_json(&self.etd)));
        proof {
            reveal_strlit("delay");
            reveal_strlit("train_origin");
            reveal_strlit("train_destination");
            reveal_strlit("departure_time");
            reveal_strlit("arrival_time");
            reveal_strlit("train_number");
            reveal_strlit("platform");
            reveal_strlit("occupancy");
            reveal_strlit("eta");
            reveal_strlit("etd");
            let fs = fields@;
            assert(fs[0].0@ == "delay"@);
            assert(fs[1].0@ == "train_origin"@);
            assert(fs[2].0@ == "train_destination"@);
            assert(fs[3].0@ == "departure_time"@);
            assert(fs[4].0@ == "arrival_time"@);
            assert(fs[5].0@ == "train_number"@);
            assert(fs[6].0@ == "platform"@);
            assert(fs[7].0@ == "occupancy"@);
            assert(fs[8].0@ == "eta"@);
            assert(fs[9].0@ == "etd"@);
            assert("train_origin"@[0] == 't' && "arrival_time"@[0] == 'a');
            assert("train_origin"@[6] == 'o' && "train_number"@[6] == 'n');
            assert("eta"@[2] == 'a' && "etd"@[2] == 'd');
            lemma_lookup_found(fs, 0, "delay"@);
            lemma_lookup_found(fs, 1, "train_origin"@);
            lemma_lookup_found(fs, 2, "train_destination"@);
            lemma_lookup_found(fs, 3, "departure_time"@);
            lemma_lookup_found(fs, 4, "arrival_time"@);
            lemma_lookup_found(fs, 5, "train_number"@);
            lemma_lookup_found(fs, 6, "platform"@);
            lemma_lookup_found(fs, 7, "occupancy"@);
            lemma_lookup_found(fs, 8, "eta"@);
            lemma_lookup_found(fs, 9, "etd"@);
        }
        JsonValue::Obj(fields)
    }
}

/// An optional text field as JSON: `null` for unknown.
pub fn opt_text_json(o: &Option<String>) -> (j: JsonValue)
    ensures
        opt_text_of(Some(j)) == Some(opt_str_view(*o)),
{
    match o {
        None => JsonValue::Null,
        Some(s) => JsonValue::Str(s.clone()),
    }
}

/// An optional small signed integer field as JSON: `null` for unknown.
pub fn opt_i8_json(o: Option<i8>) -> (j: JsonValue)
    ensures
        opt_i8_of(Some(j)) == Some(o),
{
    match o {
        None => JsonValue::Null,
        Some(d) => JsonValue::Int(d as i64),
    }
}

/// An optional small unsigned integer field as JSON: `null` for unknown.
pub fn opt_u8_json(o: Option<u8>) -> (j: JsonValue)
    ensures
        opt_u8_of(Some(j)) == Some(o),
{
    match o {
        None => JsonValue::Null,
        Some(d) => JsonValue::Int(d as i64),
    }
}

/// Reads a timetable list, keeping upstream order: element `i` of the
/// result comes from element `i` of the array.
pub fn parse_timetable_list(elems: &Vec<JsonValue>) -> (r: Result<Vec<Timetable>, CoreError>)
    ensures
        match timetables_of(elems@) {
            Some(m) => r matches Ok(v) && timetables_view(v@) == m,
            None => r matches Err(e) && e == CoreError::Deserialization,
        },
{
    let mut out: Vec<Timetable> = Vec::new();
    let mut i: usize = 0;
    while i < elems.len()
        invariant
            0 <= i <= elems@.len(),
            timetables_of(elems@.take(i as int)) == Some(timetables_view(out@)),
        decreases elems@.len() - i,
    {
        let ghost prev = out@;
        match Timetable::from_json(&elems[i]) {
            Ok(t) => {
                out.push(t);
                proof {
                    assert(elems@.take(i as int + 1).drop_last() =~= elems@.take(i as int));
                    assert(elems@.take(i as int + 1).last() == elems@[i as int]);
                    assert(timetables_view(out@) =~= timetables_view(prev).push(out@.last()@));
                }
            },
            Err(_) => {
                proof {
                    lemma_timetables_none(elems@, i as int);
                }
                return Err(CoreError::Deserialization);
            },
        }
        i = i + 1;
    }
    proof {
        assert(elems@.take(i as int) =~= elems@);
    }
    Ok(out)
}

/// Writes a timetable list in order; reading it back yields the same
/// models.
pub fn timetable_list_to_json(entries: &Vec<Timetable>) -> (r: Vec<JsonValue>)
    ensures
        timetables_of(r@) == Some(timetables_view(entries@)),
{
    let mut out: Vec<JsonValue> = Vec::new();
    let mut i: usize = 0;
    while i < entries.len()
        invariant
            0 <= i <= entries@.len(),
            timetables_of(out@) == Some(timetables_view(entries@.take(i as int))),
        decreases entries@.len() - i,
    {
        let ghost prev = out@;
        out.push(entries[i].to_json());
        proof {
            assert(out@.drop_last() =~= prev);
            assert(timetables_view(entries@.take(i as int + 1)) =~= timetables_view(
                entries@.take(i as int),
            ).push(entries@[i as int]@));
        }
        i = i + 1;
    }
    proof {
        assert(entries@.take(i as int) =~= entries@);
    }
    out
}

} // verus!
