//! Flight records: the keyed-object decoder for the flights endpoint, its
//! canonical re-encoder, and the request builder.
use vstd::prelude::*;
use vstd::string::StringExecFns;

use crate::errors::{DecodeError, FieldId, FormError};
use crate::states::{spec_login_part, spec_opt_login};
use crate::text::spec_dec_nat;
use crate::{Login, LoginV};
use crate::json::{
    json_view, json_view_fields, json_view_seq, spec_as_opt_str, spec_as_str, spec_as_u64,
    spec_enc_opt_str, spec_obj_get, vopt_str, JsonNumber, JsonV, JsonValue, NumberV,
};

verus! {

broadcast use vstd::std_specs::vec::group_vec_axioms;

/// A required unsigned integer that fits `u16`.
pub open spec fn spec_as_u16(v: JsonV) -> Option<u16> {
    match v {
        JsonV::Num(NumberV::Uint(u)) => if u <= u16::MAX {
            Some(u as u16)
        } else {
            None
        },
        _ => None,
    }
}

/// An optional unsigned integer that fits `u32`.
pub open spec fn spec_as_opt_u32(v: JsonV) -> Option<Option<u32>> {
    match v {
        JsonV::Null => Some(None),
        JsonV::Num(NumberV::Uint(u)) => if u <= u32::MAX {
            Some(Some(u as u32))
        } else {
            None
        },
        _ => None,
    }
}

fn value_u16(v: &JsonValue) -> (r: Option<u16>)
    ensures
        r == spec_as_u16(v@),
{
    match v {
        JsonValue::Num(JsonNumber::Uint(u)) => if *u <= 0xffff {
            Some(*u as u16)
        } else {
            None
        },
        _ => None,
    }
}

fn value_opt_u32(v: &JsonValue) -> (r: Option<Option<u32>>)
    ensures
        r == spec_as_opt_u32(v@),
{
    match v {
        JsonValue::Null => Some(None),
        JsonValue::Num(JsonNumber::Uint(u)) => if *u <= 0xffff_ffff {
            Some(Some(*u as u32))
        } else {
            None
        },
        _ => None,
    }
}

/// An optional unsigned integer encoded as itself or wire null.
pub open spec fn spec_enc_opt_u32(o: Option<u32>) -> JsonV {
    match o {
        Some(u) => JsonV::Num(NumberV::Uint(u as u64)),
        None => JsonV::Null,
    }
}

fn enc_opt_u32(o: &Option<u32>) -> (r: JsonValue)
    ensures
        json_view(r) == spec_enc_opt_u32(*o),
{
    match o {
        Some(u) => JsonValue::Num(JsonNumber::Uint(*u as u64)),
        None => JsonValue::Null,
    }
}

/// The first key that is bound: the canonical field name, else its wire
/// alias.
pub open spec fn spec_get2(f: Seq<(Seq<char>, JsonV)>, k1: Seq<char>, k2: Seq<char>) -> Option<
    JsonV,
> {
    match spec_obj_get(f, k1) {
        Some(v) => Some(v),
        None => spec_obj_get(f, k2),
    }
}

pub(crate) fn get2<'a>(f: &'a Vec<(String, JsonValue)>, k1: &str, k2: &str) -> (r: Option<&'a JsonValue>)
    ensures
        match r {
            Some(w) => spec_get2(json_view_fields(f@), k1@, k2@) == Some(json_view(*w)),
            None => spec_get2(json_view_fields(f@), k1@, k2@) is None,
        },
{
    match crate::json::obj_get(f, k1) {
        Some(w) => Some(w),
        None => crate::json::obj_get(f, k2),
    }
}

/// One flight of the flights endpoint: a keyed object on the wire, with
/// camel-case wire names; the decoder also accepts the canonical snake-case
/// names that the canonical encoder emits.
#[derive(Debug, PartialEq)]
pub struct Flight {
    /// Unique ICAO 24-bit address of the transponder, as a hex string.
    pub icao24: String,
    /// Unix timestamp (seconds) the flight was first seen.
    pub first_seen: u64,
    /// Estimated departure airport (4-letter code), if any.
    pub est_departure_airport: Option<String>,
    /// Unix timestamp (seconds) the flight was last seen.
    pub last_seen: u64,
    /// Estimated arrival airport (4-letter code), if any.
    pub est_arrival_airport: Option<String>,
    /// Callsign of the vehicle, if one was received.
    pub callsign: Option<String>,
    /// Horizontal distance in meters to the estimated departure airport.
    pub est_departure_airport_horiz_distance: Option<u32>,
    /// Vertical distance in meters to the estimated departure airport.
    pub est_departure_airport_vert_distance: Option<u32>,
    /// Horizontal distance in meters to the estimated arrival airport.
    pub est_arrival_airport_horiz_distance: Option<u32>,
    /// Vertical distance in meters to the estimated arrival airport.
    pub est_arrival_airport_vert_distance: Option<u32>,
    /// Number of other possible departure airports.
    pub departure_airport_candidates_count: u16,
    /// Number of other possible arrival airports.
    pub arrival_airport_candidates_count: u16,
}

/// The mathematical view of a [`Flight`].
pub struct FlightV {
    pub icao24: Seq<char>,
    pub first_seen: u64,
    pub est_departure_airport: Option<Seq<char>>,
    pub last_seen: u64,
    pub est_arrival_airport: Option<Seq<char>>,
    pub callsign: Option<Seq<char>>,
    pub est_departure_airport_horiz_distance: Option<u32>,
    pub est_departure_airport_vert_distance: Option<u32>,
    pub est_arrival_airport_horiz_distance: Option<u32>,
    pub est_arrival_airport_vert_distance: Option<u32>,
    pub departure_airport_candidates_count: u16,
    pub arrival_airport_candidates_count: u16,
}

impl View for Flight {
    type V = FlightV;

    open spec fn view(&self) -> FlightV {
        FlightV {
            icao24: self.icao24@,
            first_seen: self.first_seen,
            est_departure_airport: vopt_str(self.est_departure_airport),
            last_seen: self.last_seen,
            est_arrival_airport: vopt_str(self.est_arrival_airport),
            callsign: vopt_str(self.callsign),
            est_departure_airport_horiz_distance: self.est_departure_airport_horiz_distance,
            est_departure_airport_vert_distance: self.est_departure_airport_vert_distance,
            est_arrival_airport_horiz_distance: self.est_arrival_airport_horiz_distance,
            est_arrival_airport_vert_distance: self.est_arrival_airport_vert_distance,
            departure_airport_candidates_count: self.departure_airport_candidates_count,
            arrival_airport_candidates_count: self.arrival_airport_candidates_count,
        }
    }
}

/// One flight decoded from its keyed object: the required fields must be
/// present with the right type, an optional field may be absent or wire
/// null.
pub open spec fn spec_decode_flight_obj(f: Seq<(Seq<char>, JsonV)>) -> Result<
    FlightV,
    FormError,
> {
    if false {
        Err(FormError::NotAnObject)
    } else if spec_obj_get(f, "icao24"@) is None {
        Err(FormError::MissingField(FieldId::Icao24))
    } else if spec_as_str(spec_obj_get(f, "icao24"@)->Some_0) is None {
        Err(FormError::WrongType(FieldId::Icao24))
    } else if spec_get2(f, "first_seen"@, "firstSeen"@) is None {
        Err(FormError::MissingField(FieldId::FirstSeen))
    } else if spec_as_u64(spec_get2(f, "first_seen"@, "firstSeen"@)->Some_0) is None {
        Err(FormError::WrongType(FieldId::FirstSeen))
    } else if spec_get2(f, "est_departure_airport"@, "estDepartureAirport"@) is Some && spec_as_opt_str(spec_get2(f, "est_departure_airport"@, "estDepartureAirport"@)->Some_0) is None {
        Err(FormError::WrongType(FieldId::EstDepartureAirport))
    } else if spec_get2(f, "last_seen"@, "lastSeen"@) is None {
        Err(FormError::MissingField(FieldId::LastSeen))
    } else if spec_as_u64(spec_get2(f, "last_seen"@, "lastSeen"@)->Some_0) is None {
        Err(FormError::WrongType(FieldId::LastSeen))
    } else if spec_get2(f, "est_arrival_airport"@, "estArrivalAirport"@) is Some && spec_as_opt_str(spec_get2(f, "est_arrival_airport"@, "estArrivalAirport"@)->Some_0) is None {
        Err(FormError::WrongType(FieldId::EstArrivalAirport))
    } else if spec_obj_get(f, "callsign"@) is Some && spec_as_opt_str(spec_obj_get(f, "callsign"@)->Some_0) is None {
        Err(FormError::WrongType(FieldId::Callsign))
    } else if spec_get2(f, "est_departure_airport_horiz_distance"@, "estDepartureAirportHorizDistance"@) is Some && spec_as_opt_u32(spec_get2(f, "est_departure_airport_horiz_distance"@, "estDepartureAirportHorizDistance"@)->Some_0) is None {
        Err(FormError::WrongType(FieldId::EstDepartureAirportHorizDistance))
    } else if spec_get2(f, "est_departure_airport_vert_distance"@, "estDepartureAirportVertDistance"@) is Some && spec_as_opt_u32(spec_get2(f, "est_departure_airport_vert_distance"@, "estDepartureAirportVertDistance"@)->Some_0) is None {
        Err(FormError::WrongType(FieldId::EstDepartureAirportVertDistance))
    } else if spec_get2(f, "est_arrival_airport_horiz_distance"@, "estArrivalAirportHorizDistance"@) is Some && spec_as_opt_u32(spec_get2(f, "est_arrival_airport_horiz_distance"@, "estArrivalAirportHorizDistance"@)->Some_0) is None {
        Err(FormError::WrongType(FieldId::EstArrivalAirportHorizDistance))
    } else if spec_get2(f, "est_arrival_airport_vert_distance"@, "estArrivalAirportVertDistance"@) is Some && spec_as_opt_u32(spec_get2(f, "est_arrival_airport_vert_distance"@, "estArrivalAirportVertDistance"@)->Some_0) is None {
        Err(FormError::WrongType(FieldId::EstArrivalAirportVertDistance))
    } else if spec_get2(f, "departure_airport_candidates_count"@, "departureAirportCandidatesCount"@) is None {
        Err(FormError::MissingField(FieldId::DepartureAirportCandidatesCount))
    } else if spec_as_u16(spec_get2(f, "departure_airport_candidates_count"@, "departureAirportCandidatesCount"@)->Some_0) is None {
        Err(FormError::WrongType(FieldId::DepartureAirportCandidatesCount))
    } else if spec_get2(f, "arrival_airport_candidates_count"@, "arrivalAirportCandidatesCount"@) is None {
        Err(FormError::MissingField(FieldId::ArrivalAirportCandidatesCount))
    } else if spec_as_u16(spec_get2(f, "arrival_airport_candidates_count"@, "arrivalAirportCandidatesCount"@)->Some_0) is None {
        Err(FormError::WrongType(FieldId::ArrivalAirportCandidatesCount))
    } else {
        Ok(
            FlightV {
                icao24: spec_as_str(spec_obj_get(f, "icao24"@)->Some_0)->Some_0,
                first_seen: spec_as_u64(spec_get2(f, "first_seen"@, "firstSeen"@)->Some_0)->Some_0,
                est_departure_airport: if spec_get2(f, "est_departure_airport"@, "estDepartureAirport"@) is None {
                    None
                } else {
                    spec_as_opt_str(spec_get2(f, "est_departure_airport"@, "estDepartureAirport"@)->Some_0)->Some_0
                },
                last_seen: spec_as_u64(spec_get2(f, "last_seen"@, "lastSeen"@)->Some_0)->Some_0,
                est_arrival_airport: if spec_get2(f, "est_arrival_airport"@, "estArrivalAirport"@) is None {
                    None
                } else {
                    spec_as_opt_str(spec_get2(f, "est_arrival_airport"@, "estArrivalAirport"@)->Some_0)->Some_0
                },
                callsign: if spec_obj_get(f, "callsign"@) is None {
                    None
                } else {
                    spec_as_opt_str(spec_obj_get(f, "callsign"@)->Some_0)->Some_0
                },
                est_departure_airport_horiz_distance: if spec_get2(f, "est_departure_airport_horiz_distance"@, "estDepartureAirportHorizDistance"@) is None {
                    None
                } else {
                    spec_as_opt_u32(spec_get2(f, "est_departure_airport_horiz_distance"@, "estDepartureAirportHorizDistance"@)->Some_0)->Some_0
                },
                est_departure_airport_vert_distance: if spec_get2(f, "est_departure_airport_vert_distance"@, "estDepartureAirportVertDistance"@) is None {
                    None
                } else {
                    spec_as_opt_u32(spec_get2(f, "est_departure_airport_vert_distance"@, "estDepartureAirportVertDistance"@)->Some_0)->Some_0
                },
                est_arrival_airport_horiz_distance: if spec_get2(f, "est_arrival_airport_horiz_distance"@, "estArrivalAirportHorizDistance"@) is None {
                    None
                } else {
                    spec_as_opt_u32(spec_get2(f, "est_arrival_airport_horiz_distance"@, "estArrivalAirportHorizDistance"@)->Some_0)->Some_0
                },
                est_arrival_airport_vert_distance: if spec_get2(f, "est_arrival_airport_vert_distance"@, "estArrivalAirportVertDistance"@) is None {
                    None
                } else {
                    spec_as_opt_u32(spec_get2(f, "est_arrival_airport_vert_distance"@, "estArrivalAirportVertDistance"@)->Some_0)->Some_0
                },
                departure_airport_candidates_count: spec_as_u16(spec_get2(f, "departure_airport_candidates_count"@, "departureAirportCandidatesCount"@)->Some_0)->Some_0,
                arrival_airport_candidates_count: spec_as_u16(spec_get2(f, "arrival_airport_candidates_count"@, "arrivalAirportCandidatesCount"@)->Some_0)->Some_0,
            },
        )
    }
}

/// Decodes one flight from its keyed object form.
pub fn decode_flight_object(f: &Vec<(String, JsonValue)>) -> (r: Result<Flight, FormError>)
    ensures
        match r {
            Ok(fl) => spec_decode_flight_obj(json_view_fields(f@)) == Ok::<_, FormError>(fl@),
            Err(e) => spec_decode_flight_obj(json_view_fields(f@)) == Err::<FlightV, _>(e),
        },
{
    let icao24 = match crate::json::obj_get(f, "icao24") {
        None => {
            return Err(FormError::MissingField(FieldId::Icao24));
        },
        Some(w) => match crate::json::value_string(w) {
            Some(x) => x,
            None => {
                return Err(FormError::WrongType(FieldId::Icao24));
            },
        },
    };
    let first_seen = match get2(f, "first_seen", "firstSeen") {
        None => {
            return Err(FormError::MissingField(FieldId::FirstSeen));
        },
        Some(w) => match crate::json::value_u64(w) {
            Some(x) => x,
            None => {
                return Err(FormError::WrongType(FieldId::FirstSeen));
            },
        },
    };
    let est_departure_airport = match get2(f, "est_departure_airport", "estDepartureAirport") {
        None => None,
        Some(w) => match crate::json::value_opt_string(w) {
            Some(x) => x,
            None => {
                return Err(FormError::WrongType(FieldId::EstDepartureAirport));
            },
        },
    };
    let last_seen = match get2(f, "last_seen", "lastSeen") {
        None => {
            return Err(FormError::MissingField(FieldId::LastSeen));
        },
        Some(w) => match crate::json::value_u64(w) {
            Some(x) => x,
            None => {
                return Err(FormError::WrongType(FieldId::LastSeen));
            },
        },
    };
    let est_arrival_airport = match get2(f, "est_arrival_airport", "estArrivalAirport") {
        None => None,
        Some(w) => match crate::json::value_opt_string(w) {
            Some(x) => x,
            None => {
                return Err(FormError::WrongType(FieldId::EstArrivalAirport));
            },
        },
    };
    let callsign = match crate::json::obj_get(f, "callsign") {
        None => None,
        Some(w) => match crate::json::value_opt_string(w) {
            Some(x) => x,
            None => {
                return Err(FormError::WrongType(FieldId::Callsign));
            },
        },
    };
    let est_departure_airport_horiz_distance = match get2(f, "est_departure_airport_horiz_distance", "estDepartureAirportHorizDistance") {
        None => None,
        Some(w) => match value_opt_u32(w) {
            Some(x) => x,
            None => {
                return Err(FormError::WrongType(FieldId::EstDepartureAirportHorizDistance));
            },
        },
    };
    let est_departure_airport_vert_distance = match get2(f, "est_departure_airport_vert_distance", "estDepartureAirportVertDistance") {
        None => None,
        Some(w) => match value_opt_u32(w) {
            Some(x) => x,
            None => {
                return Err(FormError::WrongType(FieldId::EstDepartureAirportVertDistance));
            },
        },
    };
    let est_arrival_airport_horiz_distance = match get2(f, "est_arrival_airport_horiz_distance", "estArrivalAirportHorizDistance") {
        None => None,
        Some(w) => match value_opt_u32(w) {
            Some(x) => x,
            None => {
                return Err(FormError::WrongType(FieldId::EstArrivalAirportHorizDistance));
            },
        },
    };
    let est_arrival_airport_vert_distance = match get2(f, "est_arrival_airport_vert_distance", "estArrivalAirportVertDistance") {
        None => None,
        Some(w) => match value_opt_u32(w) {
            Some(x) => x,
            None => {
                return Err(FormError::WrongType(FieldId::EstArrivalAirportVertDistance));
            },
        },
    };
    let departure_airport_candidates_count = match get2(f, "departure_airport_candidates_count", "departureAirportCandidatesCount") {
        None => {
            return Err(FormError::MissingField(FieldId::DepartureAirportCandidatesCount));
        },
        Some(w) => match value_u16(w) {
            Some(x) => x,
            None => {
                return Err(FormError::WrongType(FieldId::DepartureAirportCandidatesCount));
            },
        },
    };
    let arrival_airport_candidates_count = match get2(f, "arrival_airport_candidates_count", "arrivalAirportCandidatesCount") {
        None => {
            return Err(FormError::MissingField(FieldId::ArrivalAirportCandidatesCount));
        },
        Some(w) => match value_u16(w) {
            Some(x) => x,
            None => {
                return Err(FormError::WrongType(FieldId::ArrivalAirportCandidatesCount));
            },
        },
    };
    Ok(
        Flight {
        icao24,
        first_seen,
        est_departure_airport,
        last_seen,
        est_arrival_airport,
        callsign,
        est_departure_airport_horiz_distance,
        est_departure_airport_vert_distance,
        est_arrival_airport_horiz_distance,
        est_arrival_airport_vert_distance,
        departure_airport_candidates_count,
        arrival_airport_candidates_count,
        },
    )
}

/// One element of the flights response: it must be a keyed object.
pub open spec fn spec_decode_flight_item(v: JsonV) -> Result<FlightV, FormError> {
    match v {
        JsonV::Obj(f) => spec_decode_flight_obj(f),
        _ => Err(FormError::NotAnObject),
    }
}

fn decode_flight_item(v: &JsonValue) -> (r: Result<Flight, FormError>)
    ensures
        match r {
            Ok(fl) => spec_decode_flight_item(v@) == Ok::<_, FormError>(fl@),
            Err(e) => spec_decode_flight_item(v@) == Err::<FlightV, _>(e),
        },
{
    match v {
        JsonValue::Obj(f) => decode_flight_object(f),
        _ => Err(FormError::NotAnObject),
    }
}

/// A whole flights response: an array of flight objects, in wire order; the
/// first refusing element refuses the response.
pub open spec fn spec_decode_flight_list(items: Seq<JsonV>) -> Result<Seq<FlightV>, FormError>
    decreases items.len(),
{
    if items.len() == 0 {
        Ok(Seq::empty())
    } else {
        match (spec_decode_flight_list(items.drop_last()), spec_decode_flight_item(
            items.last(),
        )) {
            (Ok(rest), Ok(fl)) => Ok(rest.push(fl)),
            (Err(e), _) => Err(e),
            (_, Err(e)) => Err(e),
        }
    }
}

proof fn lemma_flight_list_err(items: Seq<JsonV>, i: int)
    requires
        0 <= i < items.len(),
        spec_decode_flight_list(items.take(i)) is Ok,
        spec_decode_flight_item(items[i]) is Err,
    ensures
        spec_decode_flight_list(items) == Err::<Seq<FlightV>, FormError>(
            spec_decode_flight_item(items[i])->Err_0,
        ),
    decreases items.len(),
{
    if i == items.len() - 1 {
        assert(items.drop_last() =~= items.take(i));
    } else {
        assert(items.drop_last().take(i) =~= items.take(i));
        assert(items.drop_last()[i] == items[i]);
        lemma_flight_list_err(items.drop_last(), i);
    }
}

/// What the whole flights endpoint decodes to: the top level must be an
/// array of flight objects.
pub open spec fn spec_decode_flights(v: JsonV) -> Result<Seq<FlightV>, DecodeError> {
    match v {
        JsonV::Arr(items) => match spec_decode_flight_list(items) {
            Ok(fls) => Ok(fls),
            Err(e) => Err(DecodeError::Form(e)),
        },
        _ => Err(DecodeError::Form(FormError::NotAnArray)),
    }
}

/// Decodes a whole flights response from the parsed tree.
#[verifier::loop_isolation(false)]
pub fn decode_flights_value(v: &JsonValue) -> (r: Result<Vec<Flight>, DecodeError>)
    ensures
        match r {
            Ok(fls) => spec_decode_flights(v@) == Ok::<_, DecodeError>(
                fls@.map_values(|fl: Flight| fl@),
            ),
            Err(e) => spec_decode_flights(v@) == Err::<Seq<FlightV>, _>(e),
        },
{
    let items = match v {
        JsonValue::Arr(items) => items,
        _ => {
            return Err(DecodeError::Form(FormError::NotAnArray));
        },
    };
    proof {
        crate::json::lemma_json_view_seq(items@);
    }
    let ghost vs = json_view_seq(items@);
    let n = items.len();
    let mut out: Vec<Flight> = Vec::new();
    let mut i: usize = 0;
    proof {
        assert(vs.take(0) =~= Seq::<JsonV>::empty());
        assert(out@.map_values(|fl: Flight| fl@) =~= Seq::<FlightV>::empty());
    }
    while i < n
        invariant
            0 <= i <= n,
            spec_decode_flight_list(vs.take(i as int)) == Ok::<_, FormError>(
                out@.map_values(|fl: Flight| fl@),
            ),
        decreases n - i,
    {
        match decode_flight_item(&items[i]) {
            Ok(fl) => {
                let ghost prev = out@.map_values(|fl: Flight| fl@);
                out.push(fl);
                proof {
                    assert(vs.take(i + 1).drop_last() =~= vs.take(i as int));
                    assert(vs.take(i + 1).last() == vs[i as int]);
                    assert(out@.map_values(|fl: Flight| fl@) =~= prev.push(out@.last()@));
                }
            },
            Err(e) => {
                proof {
                    lemma_flight_list_err(vs, i as int);
                }
                return Err(DecodeError::Form(e));
            },
        }
        i = i + 1;
    }
    proof {
        assert(vs.take(n as int) =~= vs);
    }
    Ok(out)
}

/// What a flights response body decodes to.
pub open spec fn spec_decode_flights_bytes(bytes: Seq<u8>) -> Result<Seq<FlightV>, DecodeError> {
    match crate::json::spec_json_parse(bytes) {
        None => Err(DecodeError::Json),
        Some(v) => spec_decode_flights(v),
    }
}

/// Decodes a flights response body.
pub fn decode_flights(body: &[u8]) -> (r: Result<Vec<Flight>, DecodeError>)
    ensures
        match r {
            Ok(fls) => spec_decode_flights_bytes(body@) == Ok::<_, DecodeError>(
                fls@.map_values(|fl: Flight| fl@),
            ),
            Err(e) => spec_decode_flights_bytes(body@) == Err::<Seq<FlightV>, _>(e),
        },
{
    match crate::json::parse_json(body) {
        None => Err(DecodeError::Json),
        Some(v) => decode_flights_value(&v),
    }
}

// ---------------------------------------------------------------------------
// The canonical encoder and the round-trip law.
// ---------------------------------------------------------------------------
/// The canonical object form of one flight: every field under its canonical
/// snake-case name, in declaration order, absent optional values as wire
/// null.
pub open spec fn spec_encode_flight_fields(fl: FlightV) -> Seq<(Seq<char>, JsonV)> {
    seq![
        ("icao24"@, JsonV::Str(fl.icao24)),
        ("first_seen"@, JsonV::Num(NumberV::Uint(fl.first_seen))),
        ("est_departure_airport"@, spec_enc_opt_str(fl.est_departure_airport)),
        ("last_seen"@, JsonV::Num(NumberV::Uint(fl.last_seen))),
        ("est_arrival_airport"@, spec_enc_opt_str(fl.est_arrival_airport)),
        ("callsign"@, spec_enc_opt_str(fl.callsign)),
        ("est_departure_airport_horiz_distance"@, spec_enc_opt_u32(fl.est_departure_airport_horiz_distance)),
        ("est_departure_airport_vert_distance"@, spec_enc_opt_u32(fl.est_departure_airport_vert_distance)),
        ("est_arrival_airport_horiz_distance"@, spec_enc_opt_u32(fl.est_arrival_airport_horiz_distance)),
        ("est_arrival_airport_vert_distance"@, spec_enc_opt_u32(fl.est_arrival_airport_vert_distance)),
        ("departure_airport_candidates_count"@, JsonV::Num(NumberV::Uint(fl.departure_airport_candidates_count as u64))),
        ("arrival_airport_candidates_count"@, JsonV::Num(NumberV::Uint(fl.arrival_airport_candidates_count as u64))),
    ]
}

pub open spec fn spec_encode_flight(fl: FlightV) -> JsonV {
    JsonV::Obj(spec_encode_flight_fields(fl))
}

/// Builds the canonical object form of one flight.
pub fn encode_flight_value(fl: &Flight) -> (r: JsonValue)
    ensures
        json_view(r) == spec_encode_flight(fl@),
{
    let mut fields: Vec<(String, JsonValue)> = Vec::new();
    fields.push((String::from_str("icao24"), JsonValue::Str(fl.icao24.clone())));
    fields.push((String::from_str("first_seen"), JsonValue::Num(JsonNumber::Uint(fl.first_seen))));
    fields.push((String::from_str("est_departure_airport"), crate::json::enc_opt_str(&fl.est_departure_airport)));
    fields.push((String::from_str("last_seen"), JsonValue::Num(JsonNumber::Uint(fl.last_seen))));
    fields.push((String::from_str("est_arrival_airport"), crate::json::enc_opt_str(&fl.est_arrival_airport)));
    fields.push((String::from_str("callsign"), crate::json::enc_opt_str(&fl.callsign)));
    fields.push((String::from_str("est_departure_airport_horiz_distance"), enc_opt_u32(&fl.est_departure_airport_horiz_distance)));
    fields.push((String::from_str("est_departure_airport_vert_distance"), enc_opt_u32(&fl.est_departure_airport_vert_distance)));
    fields.push((String::from_str("est_arrival_airport_horiz_distance"), enc_opt_u32(&fl.est_arrival_airport_horiz_distance)));
    fields.push((String::from_str("est_arrival_airport_vert_distance"), enc_opt_u32(&fl.est_arrival_airport_vert_distance)));
    fields.push((String::from_str("departure_airport_candidates_count"), JsonValue::Num(JsonNumber::Uint(fl.departure_airport_candidates_count as u64))));
    fields.push((String::from_str("arrival_airport_candidates_count"), JsonValue::Num(JsonNumber::Uint(fl.arrival_airport_candidates_count as u64))));
    let r = JsonValue::Obj(fields);
    proof {
        crate::json::lemma_json_view_fields(fields@);
        assert(json_view_fields(fields@) =~= spec_encode_flight_fields(fl@));
    }
    r
}

/// The canonical array form of a whole flights response.
pub open spec fn spec_encode_flights(fls: Seq<FlightV>) -> JsonV {
    JsonV::Arr(fls.map_values(|fl: FlightV| spec_encode_flight(fl)))
}

/// Builds the canonical array form of a whole flights response.
#[verifier::loop_isolation(false)]
pub fn encode_flights_value(fls: &Vec<Flight>) -> (r: JsonValue)
    ensures
        json_view(r) == spec_encode_flights(fls@.map_values(|fl: Flight| fl@)),
{
    let n = fls.len();
    let mut items: Vec<JsonValue> = Vec::new();
    let mut i: usize = 0;
    proof {
        assert(json_view_seq(items@) =~= fls@.take(0).map_values(
            |x: Flight| spec_encode_flight(x@),
        ));
    }
    while i < n
        invariant
            0 <= i <= n,
            n == fls@.len(),
            json_view_seq(items@) == fls@.take(i as int).map_values(
                |x: Flight| spec_encode_flight(x@),
            ),
        decreases n - i,
    {
        let ghost prev = items@;
        let item = encode_flight_value(&fls[i]);
        items.push(item);
        proof {
            assert(items@.drop_last() =~= prev);
            assert(json_view_seq(items@) == json_view_seq(prev).push(
                json_view(items@.last()),
            ));
            assert(fls@.take(i + 1) =~= fls@.take(i as int).push(fls@[i as int]));
            assert(fls@.take(i + 1).map_values(|x: Flight| spec_encode_flight(x@))
                =~= fls@.take(i as int).map_values(|x: Flight| spec_encode_flight(x@)).push(
                spec_encode_flight(fls@[i as int]@),
            ));
        }
        i = i + 1;
    }
    proof {
        assert(fls@.take(n as int) =~= fls@);
        assert(fls@.map_values(|x: Flight| spec_encode_flight(x@)) =~= fls@.map_values(
            |fl: Flight| fl@,
        ).map_values(|fl: FlightV| spec_encode_flight(fl)));
    }
    JsonValue::Arr(items)
}

/// The canonical textual encoding of a whole flights response.
pub fn encode_flights_canonical(fls: &Vec<Flight>) -> (out: String)
    ensures
        out@ == crate::render::spec_render_json(
            spec_encode_flights(fls@.map_values(|fl: Flight| fl@)),
        ),
{
    let v = encode_flights_value(fls);
    crate::render::render_json(&v)
}

/// Law (flight round trip): decoding the canonical object form of any
/// flight yields that flight back.
#[verifier::rlimit(100)]
pub proof fn lemma_flight_obj_round_trip(fl: FlightV)
    ensures
        spec_decode_flight_obj(spec_encode_flight_fields(fl)) == Ok::<FlightV, FormError>(fl),
{
    let f = spec_encode_flight_fields(fl);
    assert(spec_obj_get(f, "icao24"@) == Some(JsonV::Str(fl.icao24))) by {
            reveal_with_fuel(crate::json::spec_obj_get, 14);
            reveal_strlit("icao24");
            assert("icao24"@.len() == 6);
    }
    assert(spec_obj_get(f, "first_seen"@) == Some(JsonV::Num(NumberV::Uint(fl.first_seen)))) by {
            reveal_with_fuel(crate::json::spec_obj_get, 14);
            reveal_strlit("icao24");
            reveal_strlit("first_seen");
            assert("icao24"@.len() == 6);
            assert("first_seen"@.len() == 10);
    }
    assert(spec_obj_get(f, "est_departure_airport"@) == Some(spec_enc_opt_str(fl.est_departure_airport))) by {
            reveal_with_fuel(crate::json::spec_obj_get, 14);
            reveal_strlit("icao24");
            reveal_strlit("first_seen");
            reveal_strlit("est_departure_airport");
            assert("icao24"@.len() == 6);
            assert("first_seen"@.len() == 10);
            assert("est_departure_airport"@.len() == 21);
    }
    assert(spec_obj_get(f, "last_seen"@) == Some(JsonV::Num(NumberV::Uint(fl.last_seen)))) by {
            reveal_with_fuel(crate::json::spec_obj_get, 14);
            reveal_strlit("icao24");
            reveal_strlit("first_seen");
            reveal_strlit("est_departure_airport");
            reveal_strlit("last_seen");
            assert("icao24"@.len() == 6);
            assert("first_seen"@.len() == 10);
            assert("est_departure_airport"@.len() == 21);
            assert("last_seen"@.len() == 9);
    }
    assert(spec_obj_get(f, "est_arrival_airport"@) == Some(spec_enc_opt_str(fl.est_arrival_airport))) by {
            reveal_with_fuel(crate::json::spec_obj_get, 14);
            reveal_strlit("icao24");
            reveal_strlit("first_seen");
            reveal_strlit("est_departure_airport");
            reveal_strlit("last_seen");
            reveal_strlit("est_arrival_airport");
            assert("icao24"@.len() == 6);
            assert("first_seen"@.len() == 10);
            assert("est_departure_airport"@.len() == 21);
            assert("last_seen"@.len() == 9);
            assert("est_arrival_airport"@.len() == 19);
    }
    assert(spec_obj_get(f, "callsign"@) == Some(spec_enc_opt_str(fl.callsign))) by {
            reveal_with_fuel(crate::json::spec_obj_get, 14);
            reveal_strlit("icao24");
            reveal_strlit("first_seen");
            reveal_strlit("est_departure_airport");
            reveal_strlit("last_seen");
            reveal_strlit("est_arrival_airport");
            reveal_strlit("callsign");
            assert("icao24"@.len() == 6);
            assert("first_seen"@.len() == 10);
            assert("est_departure_airport"@.len() == 21);
            assert("last_seen"@.len() == 9);
            assert("est_arrival_airport"@.len() == 19);
            assert("callsign"@.len() == 8);
    }
    assert(spec_obj_get(f, "est_departure_airport_horiz_distance"@) == Some(spec_enc_opt_u32(fl.est_departure_airport_horiz_distance))) by {
            reveal_with_fuel(crate::json::spec_obj_get, 14);
            reveal_strlit("icao24");
            reveal_strlit("first_seen");
            reveal_strlit("est_departure_airport");
            reveal_strlit("last_seen");
            reveal_strlit("est_arrival_airport");
            reveal_strlit("callsign");
            reveal_strlit("est_departure_airport_horiz_distance");
            assert("icao24"@.len() == 6);
            assert("first_seen"@.len() == 10);
            assert("est_departure_airport"@.len() == 21);
            assert("last_seen"@.len() == 9);
            assert("est_arrival_airport"@.len() == 19);
            assert("callsign"@.len() == 8);
            assert("est_departure_airport_horiz_distance"@.len() == 36);
    }
    assert(spec_obj_get(f, "est_departure_airport_vert_distance"@) == Some(spec_enc_opt_u32(fl.est_departure_airport_vert_distance))) by {
            reveal_with_fuel(crate::json::spec_obj_get, 14);
            reveal_strlit("icao24");
            reveal_strlit("first_seen");
            reveal_strlit("est_departure_airport");
            reveal_strlit("last_seen");
            reveal_strlit("est_arrival_airport");
            reveal_strlit("callsign");
            reveal_strlit("est_departure_airport_horiz_distance");
            reveal_strlit("est_departure_airport_vert_distance");
            assert("icao24"@.len() == 6);
            assert("first_seen"@.len() == 10);
            assert("est_departure_airport"@.len() == 21);
            assert("last_seen"@.len() == 9);
            assert("est_arrival_airport"@.len() == 19);
            assert("callsign"@.len() == 8);
            assert("est_departure_airport_horiz_distance"@.len() == 36);
            assert("est_departure_airport_vert_distance"@.len() == 35);
    }
    assert(spec_obj_get(f, "est_arrival_airport_horiz_distance"@) == Some(spec_enc_opt_u32(fl.est_arrival_airport_horiz_distance))) by {
            reveal_with_fuel(crate::json::spec_obj_get, 14);
            reveal_strlit("icao24");
            reveal_strlit("first_seen");
            reveal_strlit("est_departure_airport");
            reveal_strlit("last_seen");
            reveal_strlit("est_arrival_airport");
            reveal_strlit("callsign");
            reveal_strlit("est_departure_airport_horiz_distance");
            reveal_strlit("est_departure_airport_vert_distance");
            reveal_strlit("est_arrival_airport_horiz_distance");
            assert("icao24"@.len() == 6);
            assert("first_seen"@.len() == 10);
            assert("est_departure_airport"@.len() == 21);
            assert("last_seen"@.len() == 9);
            assert("est_arrival_airport"@.len() == 19);
            assert("callsign"@.len() == 8);
            assert("est_departure_airport_horiz_distance"@.len() == 36);
            assert("est_departure_airport_vert_distance"@.len() == 35);
            assert("est_arrival_airport_horiz_distance"@.len() == 34);
    }
    assert(spec_obj_get(f, "est_arrival_airport_vert_distance"@) == Some(spec_enc_opt_u32(fl.est_arrival_airport_vert_distance))) by {
            reveal_with_fuel(crate::json::spec_obj_get, 14);
            reveal_strlit("icao24");
            reveal_strlit("first_seen");
            reveal_strlit("est_departure_airport");
            reveal_strlit("last_seen");
            reveal_strlit("est_arrival_airport");
            reveal_strlit("callsign");
            reveal_strlit("est_departure_airport_horiz_distance");
            reveal_strlit("est_departure_airport_vert_distance");
            reveal_strlit("est_arrival_airport_horiz_distance");
            reveal_strlit("est_arrival_airport_vert_distance");
            assert("icao24"@.len() == 6);
            assert("first_seen"@.len() == 10);
            assert("est_departure_airport"@.len() == 21);
            assert("last_seen"@.len() == 9);
            assert("est_arrival_airport"@.len() == 19);
            assert("callsign"@.len() == 8);
            assert("est_departure_airport_horiz_distance"@.len() == 36);
            assert("est_departure_airport_vert_distance"@.len() == 35);
            assert("est_arrival_airport_horiz_distance"@.len() == 34);
            assert("est_arrival_airport_vert_distance"@.len() == 33);
    }
    assert(spec_obj_get(f, "departure_airport_candidates_count"@) == Some(JsonV::Num(NumberV::Uint(fl.departure_airport_candidates_count as u64)))) by {
            reveal_with_fuel(crate::json::spec_obj_get, 14);
            reveal_strlit("icao24");
            reveal_strlit("first_seen");
            reveal_strlit("est_departure_airport");
            reveal_strlit("last_seen");
            reveal_strlit("est_arrival_airport");
            reveal_strlit("callsign");
            reveal_strlit("est_departure_airport_horiz_distance");
            reveal_strlit("est_departure_airport_vert_distance");
            reveal_strlit("est_arrival_airport_horiz_distance");
            reveal_strlit("est_arrival_airport_vert_distance");
            reveal_strlit("departure_airport_candidates_count");
            assert("icao24"@.len() == 6);
            assert("first_seen"@.len() == 10);
            assert("est_departure_airport"@.len() == 21);
            assert("last_seen"@.len() == 9);
            assert("est_arrival_airport"@.len() == 19);
            assert("callsign"@.len() == 8);
            assert("est_departure_airport_horiz_distance"@.len() == 36);
            assert("est_departure_airport_vert_distance"@.len() == 35);
            assert("est_arrival_airport_horiz_distance"@.len() == 34);
            assert("est_arrival_airport_vert_distance"@.len() == 33);
            assert("departure_airport_candidates_count"@.len() == 34);
            assert("departure_airport_candidates_count"@[0] != "est_arrival_airport_horiz_distance"@[0]);
            assert("departure_airport_candidates_count"@ != "est_arrival_airport_horiz_distance"@);
    }
    assert(spec_obj_get(f, "arrival_airport_candidates_count"@) == Some(JsonV::Num(NumberV::Uint(fl.arrival_airport_candidates_count as u64)))) by {
            reveal_with_fuel(crate::json::spec_obj_get, 14);
            reveal_strlit("icao24");
            reveal_strlit("first_seen");
            reveal_strlit("est_departure_airport");
            reveal_strlit("last_seen");
            reveal_strlit("est_arrival_airport");
            reveal_strlit("callsign");
            reveal_strlit("est_departure_airport_horiz_distance");
            reveal_strlit("est_departure_airport_vert_distance");
            reveal_strlit("est_arrival_airport_horiz_distance");
            reveal_strlit("est_arrival_airport_vert_distance");
            reveal_strlit("departure_airport_candidates_count");
            reveal_strlit("arrival_airport_candidates_count");
            assert("icao24"@.len() == 6);
            assert("first_seen"@.len() == 10);
            assert("est_departure_airport"@.len() == 21);
            assert("last_seen"@.len() == 9);
            assert("est_arrival_airport"@.len() == 19);
            assert("callsign"@.len() == 8);
            assert("est_departure_airport_horiz_distance"@.len() == 36);
            assert("est_departure_airport_vert_distance"@.len() == 35);
            assert("est_arrival_airport_horiz_distance"@.len() == 34);
            assert("est_arrival_airport_vert_distance"@.len() == 33);
            assert("departure_airport_candidates_count"@.len() == 34);
            assert("arrival_airport_candidates_count"@.len() == 32);
    }
    assert(spec_decode_flight_obj(f)->Ok_0 =~= fl);
}

proof fn lemma_flight_list_round_trip(fls: Seq<FlightV>)
    ensures
        spec_decode_flight_list(fls.map_values(|fl: FlightV| spec_encode_flight(fl))) == Ok::<
            Seq<FlightV>,
            FormError,
        >(fls),
    decreases fls.len(),
{
    let items = fls.map_values(|fl: FlightV| spec_encode_flight(fl));
    if fls.len() == 0 {
        assert(items =~= Seq::<JsonV>::empty());
        assert(fls =~= Seq::<FlightV>::empty());
    } else {
        assert(items.drop_last() =~= fls.drop_last().map_values(
            |fl: FlightV| spec_encode_flight(fl),
        ));
        lemma_flight_list_round_trip(fls.drop_last());
        lemma_flight_obj_round_trip(fls.last());
        assert(items.last() == spec_encode_flight(fls.last()));
        assert(fls.drop_last().push(fls.last()) =~= fls);
    }
}

/// Law (flights round trip): decoding the canonical encoding of any flights
/// response yields the response back.
pub proof fn lemma_flights_round_trip(fls: Seq<FlightV>)
    ensures
        spec_decode_flights(spec_encode_flights(fls)) == Ok::<Seq<FlightV>, DecodeError>(fls),
{
    lemma_flight_list_round_trip(fls);
}


// ---------------------------------------------------------------------------
// The flights request and its builder.
// ---------------------------------------------------------------------------
/// A request for flights in a time interval, assembled by
/// [`FlightsRequestBuilder`].
#[derive(Debug)]
pub struct FlightsRequest {
    login: Option<Login>,
    begin: u64,
    end: u64,
    icao24_address: Option<String>,
}

/// The mathematical view of a [`FlightsRequest`].
pub struct FlightsRequestV {
    pub login: Option<LoginV>,
    pub begin: u64,
    pub end: u64,
    pub icao24_address: Option<Seq<char>>,
}

impl View for FlightsRequest {
    type V = FlightsRequestV;

    closed spec fn view(&self) -> FlightsRequestV {
        FlightsRequestV {
            login: spec_opt_login(self.login),
            begin: self.begin,
            end: self.end,
            icao24_address: vopt_str(self.icao24_address),
        }
    }
}

/// The exact URL of a flights request: the interval bounds as query
/// arguments. The recorded aircraft filter is not part of this endpoint's
/// URL.
pub open spec fn spec_flights_url(r: FlightsRequestV) -> Seq<char> {
    "https://"@ + spec_login_part(r.login) + "opensky-network.org/api/flights/all?begin="@
        + spec_dec_nat(r.begin as nat) + "&end="@ + spec_dec_nat(r.end as nat)
}

impl FlightsRequest {
    /// The URL this request will be sent to, exact to the character.
    pub fn url(&self) -> (r: String)
        ensures
            r@ == spec_flights_url(self@),
    {
        let mut out = String::new();
        out.append("https://");
        crate::states::append_login_part(&mut out, &self.login);
        out.append("opensky-network.org/api/flights/all?begin=");
        crate::text::append_u64(&mut out, self.begin);
        out.append("&end=");
        crate::text::append_u64(&mut out, self.end);
        proof {
            assert(out@ =~= spec_flights_url(self@));
        }
        out
    }

    /// An owned copy with the same view.
    pub fn duplicate(&self) -> (r: FlightsRequest)
        ensures
            r@ == self@,
    {
        FlightsRequest {
            login: match &self.login {
                Some(l) => Some(l.duplicate()),
                None => None,
            },
            begin: self.begin,
            end: self.end,
            icao24_address: match &self.icao24_address {
                Some(a) => Some(a.clone()),
                None => None,
            },
        }
    }
}

/// Builds a [`FlightsRequest`] step by step.
pub struct FlightsRequestBuilder {
    inner: FlightsRequest,
}

impl FlightsRequestBuilder {
    /// The request built so far.
    pub closed spec fn spec_inner(&self) -> FlightsRequestV {
        self.inner@
    }

    /// A fresh builder for the given interval, in seconds since the Unix
    /// epoch. The interval must not span more than two hours, or the
    /// service will refuse the request.
    pub fn new(login: Option<Login>, begin: u64, end: u64) -> (r: FlightsRequestBuilder)
        ensures
            r.spec_inner() == (FlightsRequestV {
                login: spec_opt_login(login),
                begin,
                end,
                icao24_address: None,
            }),
    {
        FlightsRequestBuilder { inner: FlightsRequest { login, begin, end, icao24_address: None } }
    }

    /// Resets the interval, so one builder can create several requests.
    /// The bounds are in seconds since the Unix epoch, and the interval
    /// must not span more than two hours.
    pub fn in_interval(&mut self, begin: u64, end: u64)
        ensures
            final(self).spec_inner() == (FlightsRequestV {
                begin,
                end,
                ..old(self).spec_inner()
            }),
    {
        self.inner.begin = begin;
        self.inner.end = end;
    }

    /// Records the aircraft to filter the flight data by, an ICAO24
    /// address in hex string representation.
    pub fn by_aircraft(&mut self, address: String)
        ensures
            final(self).spec_inner() == (FlightsRequestV {
                icao24_address: Some(address@),
                ..old(self).spec_inner()
            }),
    {
        self.inner.icao24_address = Some(address);
    }

    /// Consumes this builder and returns the request. Where the builder is
    /// to be used again, `finish` keeps it intact.
    pub fn consume(self) -> (r: FlightsRequest)
        ensures
            r@ == self.spec_inner(),
    {
        self.inner
    }

    /// Returns the request this builder has created, leaving the builder
    /// usable; this copies the inner request, so a builder used only once
    /// is better consumed.
    pub fn finish(&self) -> (r: FlightsRequest)
        ensures
            r@ == self.spec_inner(),
    {
        self.inner.duplicate()
    }
}

} // verus!
