//! Flight tracks: the positional waypoint decoder, the track decoder with
//! its tolerant null path, the canonical re-encoder, and the request
//! builder.
use vstd::prelude::*;
use vstd::string::StringExecFns;

use crate::errors::{DecodeError, FieldId, FormError};
use crate::json::{
    json_view, json_view_fields, json_view_seq, spec_as_bool, spec_as_num, spec_as_opt_num,
    spec_as_opt_str, spec_as_str, spec_as_u64, spec_enc_opt_num, spec_enc_opt_str, spec_obj_get,
    vopt_num, vopt_str, JsonNumber, JsonV, JsonValue, NumberV,
};
use crate::flights::spec_get2;
use crate::states::{spec_login_part, spec_opt_login};
use crate::text::spec_dec_nat;
use crate::{Login, LoginV};

verus! {

broadcast use vstd::std_specs::vec::group_vec_axioms;

/// Represents one waypoint of a reconstructed trajectory.
///
/// Like the state vector, a waypoint arrives either as a positional array
/// (of exactly six elements) or as a keyed object, and its numeric
/// measurements are kept wire-exact.
#[derive(Debug, PartialEq)]
pub struct Waypoint {
    /// Unix timestamp (seconds) this waypoint is associated with.
    pub time: u64,
    /// WGS-84 latitude in decimal degrees, kept wire-exact.
    pub latitude: Option<JsonNumber>,
    /// WGS-84 longitude in decimal degrees, kept wire-exact.
    pub longitude: Option<JsonNumber>,
    /// Barometric altitude in meters, kept wire-exact.
    pub baro_altitude: Option<JsonNumber>,
    /// True track in decimal degrees clockwise from north.
    pub true_track: Option<JsonNumber>,
    /// Whether the position came from a surface position report.
    pub on_ground: bool,
}

/// The mathematical view of a [`Waypoint`].
pub struct WaypointV {
    pub time: u64,
    pub latitude: Option<NumberV>,
    pub longitude: Option<NumberV>,
    pub baro_altitude: Option<NumberV>,
    pub true_track: Option<NumberV>,
    pub on_ground: bool,
}

impl View for Waypoint {
    type V = WaypointV;

    open spec fn view(&self) -> WaypointV {
        WaypointV {
            time: self.time,
            latitude: vopt_num(self.latitude),
            longitude: vopt_num(self.longitude),
            baro_altitude: vopt_num(self.baro_altitude),
            true_track: vopt_num(self.true_track),
            on_ground: self.on_ground,
        }
    }
}

/// One waypoint decoded from its positional array form: exactly six
/// elements, any other length refuses with the observed length.
pub open spec fn spec_decode_waypoint_arr(e: Seq<JsonV>) -> Result<WaypointV, FormError> {
    if e.len() != 6 {
        Err(FormError::WrongLength { observed: e.len() as usize })
    } else if spec_as_u64(e[0]) is None {
        Err(FormError::WrongType(FieldId::WaypointTime))
    } else if spec_as_opt_num(e[1]) is None {
        Err(FormError::WrongType(FieldId::Latitude))
    } else if spec_as_opt_num(e[2]) is None {
        Err(FormError::WrongType(FieldId::Longitude))
    } else if spec_as_opt_num(e[3]) is None {
        Err(FormError::WrongType(FieldId::BaroAltitude))
    } else if spec_as_opt_num(e[4]) is None {
        Err(FormError::WrongType(FieldId::TrueTrack))
    } else if spec_as_bool(e[5]) is None {
        Err(FormError::WrongType(FieldId::OnGround))
    } else {
        Ok(
            WaypointV {
                time: spec_as_u64(e[0])->Some_0,
                latitude: spec_as_opt_num(e[1])->Some_0,
                longitude: spec_as_opt_num(e[2])->Some_0,
                baro_altitude: spec_as_opt_num(e[3])->Some_0,
                true_track: spec_as_opt_num(e[4])->Some_0,
                on_ground: spec_as_bool(e[5])->Some_0,
            },
        )
    }
}

/// Decodes one waypoint from its positional array form.
pub fn decode_waypoint_array(arr: &Vec<JsonValue>) -> (r: Result<Waypoint, FormError>)
    ensures
        match r {
            Ok(w) => spec_decode_waypoint_arr(json_view_seq(arr@)) == Ok::<_, FormError>(w@),
            Err(e) => spec_decode_waypoint_arr(json_view_seq(arr@)) == Err::<WaypointV, _>(e),
        },
{
    proof {
        crate::json::lemma_json_view_seq(arr@);
    }
    if arr.len() != 6 {
        return Err(FormError::WrongLength { observed: arr.len() });
    }
    let time = match crate::json::value_u64(&arr[0]) {
        Some(x) => x,
        None => {
            return Err(FormError::WrongType(FieldId::WaypointTime));
        },
    };
    let latitude = match crate::json::value_opt_num(&arr[1]) {
        Some(x) => x,
        None => {
            return Err(FormError::WrongType(FieldId::Latitude));
        },
    };
    let longitude = match crate::json::value_opt_num(&arr[2]) {
        Some(x) => x,
        None => {
            return Err(FormError::WrongType(FieldId::Longitude));
        },
    };
    let baro_altitude = match crate::json::value_opt_num(&arr[3]) {
        Some(x) => x,
        None => {
            return Err(FormError::WrongType(FieldId::BaroAltitude));
        },
    };
    let true_track = match crate::json::value_opt_num(&arr[4]) {
        Some(x) => x,
        None => {
            return Err(FormError::WrongType(FieldId::TrueTrack));
        },
    };
    let on_ground = match crate::json::value_bool(&arr[5]) {
        Some(x) => x,
        None => {
            return Err(FormError::WrongType(FieldId::OnGround));
        },
    };
    Ok(
        Waypoint {
        time,
        latitude,
        longitude,
        baro_altitude,
        true_track,
        on_ground,
        },
    )
}

/// One waypoint decoded from its keyed object form: every key must be
/// present, wire null marking an absent optional value.
pub open spec fn spec_decode_waypoint_obj(f: Seq<(Seq<char>, JsonV)>) -> Result<
    WaypointV,
    FormError,
> {
    if false {
        Err(FormError::NotAnObject)
    } else if spec_obj_get(f, "time"@) is None {
        Err(FormError::MissingField(FieldId::WaypointTime))
    } else if spec_as_u64(spec_obj_get(f, "time"@)->Some_0) is None {
        Err(FormError::WrongType(FieldId::WaypointTime))
    } else if spec_obj_get(f, "latitude"@) is None {
        Err(FormError::MissingField(FieldId::Latitude))
    } else if spec_as_opt_num(spec_obj_get(f, "latitude"@)->Some_0) is None {
        Err(FormError::WrongType(FieldId::Latitude))
    } else if spec_obj_get(f, "longitude"@) is None {
        Err(FormError::MissingField(FieldId::Longitude))
    } else if spec_as_opt_num(spec_obj_get(f, "longitude"@)->Some_0) is None {
        Err(FormError::WrongType(FieldId::Longitude))
    } else if spec_obj_get(f, "baro_altitude"@) is None {
        Err(FormError::MissingField(FieldId::BaroAltitude))
    } else if spec_as_opt_num(spec_obj_get(f, "baro_altitude"@)->Some_0) is None {
        Err(FormError::WrongType(FieldId::BaroAltitude))
    } else if spec_obj_get(f, "true_track"@) is None {
        Err(FormError::MissingField(FieldId::TrueTrack))
    } else if spec_as_opt_num(spec_obj_get(f, "true_track"@)->Some_0) is None {
        Err(FormError::WrongType(FieldId::TrueTrack))
    } else if spec_obj_get(f, "on_ground"@) is None {
        Err(FormError::MissingField(FieldId::OnGround))
    } else if spec_as_bool(spec_obj_get(f, "on_ground"@)->Some_0) is None {
        Err(FormError::WrongType(FieldId::OnGround))
    } else {
        Ok(
            WaypointV {
                time: spec_as_u64(spec_obj_get(f, "time"@)->Some_0)->Some_0,
                latitude: spec_as_opt_num(spec_obj_get(f, "latitude"@)->Some_0)->Some_0,
                longitude: spec_as_opt_num(spec_obj_get(f, "longitude"@)->Some_0)->Some_0,
                baro_altitude: spec_as_opt_num(spec_obj_get(f, "baro_altitude"@)->Some_0)->Some_0,
                true_track: spec_as_opt_num(spec_obj_get(f, "true_track"@)->Some_0)->Some_0,
                on_ground: spec_as_bool(spec_obj_get(f, "on_ground"@)->Some_0)->Some_0,
            },
        )
    }
}

/// Decodes one waypoint from its keyed object form.
pub fn decode_waypoint_object(f: &Vec<(String, JsonValue)>) -> (r: Result<Waypoint, FormError>)
    ensures
        match r {
            Ok(w) => spec_decode_waypoint_obj(json_view_fields(f@)) == Ok::<_, FormError>(w@),
            Err(e) => spec_decode_waypoint_obj(json_view_fields(f@)) == Err::<WaypointV, _>(e),
        },
{
    let time = match crate::json::obj_get(f, "time") {
        None => {
            return Err(FormError::MissingField(FieldId::WaypointTime));
        },
        Some(w) => match crate::json::value_u64(w) {
            Some(x) => x,
            None => {
                return Err(FormError::WrongType(FieldId::WaypointTime));
            },
        },
    };
    let latitude = match crate::json::obj_get(f, "latitude") {
        None => {
            return Err(FormError::MissingField(FieldId::Latitude));
        },
        Some(w) => match crate::json::value_opt_num(w) {
            Some(x) => x,
            None => {
                return Err(FormError::WrongType(FieldId::Latitude));
            },
        },
    };
    let longitude = match crate::json::obj_get(f, "longitude") {
        None => {
            return Err(FormError::MissingField(FieldId::Longitude));
        },
        Some(w) => match crate::json::value_opt_num(w) {
            Some(x) => x,
            None => {
                return Err(FormError::WrongType(FieldId::Longitude));
            },
        },
    };
    let baro_altitude = match crate::json::obj_get(f, "baro_altitude") {
        None => {
            return Err(FormError::MissingField(FieldId::BaroAltitude));
        },
        Some(w) => match crate::json::value_opt_num(w) {
            Some(x) => x,
            None => {
                return Err(FormError::WrongType(FieldId::BaroAltitude));
            },
        },
    };
    let true_track = match crate::json::obj_get(f, "true_track") {
        None => {
            return Err(FormError::MissingField(FieldId::TrueTrack));
        },
        Some(w) => match crate::json::value_opt_num(w) {
            Some(x) => x,
            None => {
                return Err(FormError::WrongType(FieldId::TrueTrack));
            },
        },
    };
    let on_ground = match crate::json::obj_get(f, "on_ground") {
        None => {
            return Err(FormError::MissingField(FieldId::OnGround));
        },
        Some(w) => match crate::json::value_bool(w) {
            Some(x) => x,
            None => {
                return Err(FormError::WrongType(FieldId::OnGround));
            },
        },
    };
    Ok(
        Waypoint {
        time,
        latitude,
        longitude,
        baro_altitude,
        true_track,
        on_ground,
        },
    )
}

/// One waypoint decoded from either wire shape.
pub open spec fn spec_decode_waypoint(v: JsonV) -> Result<WaypointV, FormError> {
    match v {
        JsonV::Arr(e) => spec_decode_waypoint_arr(e),
        JsonV::Obj(f) => spec_decode_waypoint_obj(f),
        _ => Err(FormError::NotAnArray),
    }
}

/// Decodes one waypoint from either wire shape (a six-element positional
/// array or a keyed object).
pub fn decode_waypoint(v: &JsonValue) -> (r: Result<Waypoint, FormError>)
    ensures
        match r {
            Ok(w) => spec_decode_waypoint(v@) == Ok::<_, FormError>(w@),
            Err(e) => spec_decode_waypoint(v@) == Err::<WaypointV, _>(e),
        },
{
    match v {
        JsonValue::Arr(a) => decode_waypoint_array(a),
        JsonValue::Obj(f) => decode_waypoint_object(f),
        _ => Err(FormError::NotAnArray),
    }
}

/// A whole path: the waypoints in wire order; the first refusing element
/// refuses the path.
pub open spec fn spec_decode_waypoint_list(items: Seq<JsonV>) -> Result<Seq<WaypointV>, FormError>
    decreases items.len(),
{
    if items.len() == 0 {
        Ok(Seq::empty())
    } else {
        match (spec_decode_waypoint_list(items.drop_last()), spec_decode_waypoint(
            items.last(),
        )) {
            (Ok(rest), Ok(w)) => Ok(rest.push(w)),
            (Err(e), _) => Err(e),
            (_, Err(e)) => Err(e),
        }
    }
}

proof fn lemma_waypoint_list_err(items: Seq<JsonV>, i: int)
    requires
        0 <= i < items.len(),
        spec_decode_waypoint_list(items.take(i)) is Ok,
        spec_decode_waypoint(items[i]) is Err,
    ensures
        spec_decode_waypoint_list(items) == Err::<Seq<WaypointV>, FormError>(
            spec_decode_waypoint(items[i])->Err_0,
        ),
    decreases items.len(),
{
    if i == items.len() - 1 {
        assert(items.drop_last() =~= items.take(i));
    } else {
        assert(items.drop_last().take(i) =~= items.take(i));
        assert(items.drop_last()[i] == items[i]);
        lemma_waypoint_list_err(items.drop_last(), i);
    }
}

#[verifier::loop_isolation(false)]
fn decode_waypoint_list(items: &Vec<JsonValue>) -> (r: Result<Vec<Waypoint>, FormError>)
    ensures
        match r {
            Ok(ws) => spec_decode_waypoint_list(json_view_seq(items@)) == Ok::<_, FormError>(
                ws@.map_values(|w: Waypoint| w@),
            ),
            Err(e) => spec_decode_waypoint_list(json_view_seq(items@)) == Err::<
                Seq<WaypointV>,
                _,
            >(e),
        },
{
    proof {
        crate::json::lemma_json_view_seq(items@);
    }
    let ghost vs = json_view_seq(items@);
    let n = items.len();
    let mut out: Vec<Waypoint> = Vec::new();
    let mut i: usize = 0;
    proof {
        assert(vs.take(0) =~= Seq::<JsonV>::empty());
        assert(out@.map_values(|w: Waypoint| w@) =~= Seq::<WaypointV>::empty());
    }
    while i < n
        invariant
            0 <= i <= n,
            spec_decode_waypoint_list(vs.take(i as int)) == Ok::<_, FormError>(
                out@.map_values(|w: Waypoint| w@),
            ),
        decreases n - i,
    {
        match decode_waypoint(&items[i]) {
            Ok(w) => {
                let ghost prev = out@.map_values(|w: Waypoint| w@);
                out.push(w);
                proof {
                    assert(vs.take(i + 1).drop_last() =~= vs.take(i as int));
                    assert(vs.take(i + 1).last() == vs[i as int]);
                    assert(out@.map_values(|w: Waypoint| w@) =~= prev.push(out@.last()@));
                }
            },
            Err(e) => {
                proof {
                    lemma_waypoint_list_err(vs, i as int);
                }
                return Err(e);
            },
        }
        i = i + 1;
    }
    proof {
        assert(vs.take(n as int) =~= vs);
    }
    Ok(out)
}

/// Represents the trajectory of a certain aircraft at a given time.
///
/// The first and last waypoint times arrive from the wire with sub-second
/// precision, so they are kept wire-exact as [`JsonNumber`] values.
#[derive(Debug, PartialEq)]
pub struct FlightTrack {
    /// Unique ICAO 24-bit address of the transponder, as a hex string.
    pub icao24: String,
    /// Time of the first waypoint, in seconds since epoch, kept wire-exact.
    pub start_time: JsonNumber,
    /// Time of the last waypoint, in seconds since epoch, kept wire-exact.
    pub end_time: JsonNumber,
    /// Callsign (8 characters) that holds for the whole track, if any.
    pub callsign: Option<String>,
    /// Waypoints of the trajectory, in wire order; a wire-null path decodes
    /// to an empty sequence.
    pub path: Vec<Waypoint>,
}

/// The mathematical view of a [`FlightTrack`].
pub struct FlightTrackV {
    pub icao24: Seq<char>,
    pub start_time: NumberV,
    pub end_time: NumberV,
    pub callsign: Option<Seq<char>>,
    pub path: Seq<WaypointV>,
}

impl View for FlightTrack {
    type V = FlightTrackV;

    open spec fn view(&self) -> FlightTrackV {
        FlightTrackV {
            icao24: self.icao24@,
            start_time: self.start_time@,
            end_time: self.end_time@,
            callsign: vopt_str(self.callsign),
            path: self.path@.map_values(|w: Waypoint| w@),
        }
    }
}

/// A whole track decoded from its keyed object. `icao24` must be a string;
/// the two times must be numbers and are kept wire-exact (the wire uses
/// camel-case names, the canonical snake-case names are accepted as
/// aliases); the callsign may be absent or wire null; the path key must be
/// present, wire null decoding to an empty path.
pub open spec fn spec_decode_track_value(v: JsonV) -> Result<FlightTrackV, FormError> {
    match v {
        JsonV::Obj(f) => if spec_obj_get(f, "icao24"@) is None {
            Err(FormError::MissingField(FieldId::Icao24))
        } else if spec_as_str(spec_obj_get(f, "icao24"@)->Some_0) is None {
            Err(FormError::WrongType(FieldId::Icao24))
        } else if spec_get2(f, "start_time"@, "startTime"@) is None {
            Err(FormError::MissingField(FieldId::StartTime))
        } else if spec_as_num(spec_get2(f, "start_time"@, "startTime"@)->Some_0) is None {
            Err(FormError::WrongType(FieldId::StartTime))
        } else if spec_get2(f, "end_time"@, "endTime"@) is None {
            Err(FormError::MissingField(FieldId::EndTime))
        } else if spec_as_num(spec_get2(f, "end_time"@, "endTime"@)->Some_0) is None {
            Err(FormError::WrongType(FieldId::EndTime))
        } else if spec_obj_get(f, "callsign"@) is Some && spec_as_opt_str(
            spec_obj_get(f, "callsign"@)->Some_0,
        ) is None {
            Err(FormError::WrongType(FieldId::Callsign))
        } else if spec_obj_get(f, "path"@) is None {
            Err(FormError::MissingField(FieldId::Path))
        } else {
            let pv = spec_obj_get(f, "path"@)->Some_0;
            match pv {
                JsonV::Null => Ok(
                    FlightTrackV {
                        icao24: spec_as_str(spec_obj_get(f, "icao24"@)->Some_0)->Some_0,
                        start_time: spec_as_num(
                            spec_get2(f, "start_time"@, "startTime"@)->Some_0,
                        )->Some_0,
                        end_time: spec_as_num(
                            spec_get2(f, "end_time"@, "endTime"@)->Some_0,
                        )->Some_0,
                        callsign: if spec_obj_get(f, "callsign"@) is None {
                            None
                        } else {
                            spec_as_opt_str(spec_obj_get(f, "callsign"@)->Some_0)->Some_0
                        },
                        path: Seq::empty(),
                    },
                ),
                JsonV::Arr(items) => match spec_decode_waypoint_list(items) {
                    Ok(ws) => Ok(
                        FlightTrackV {
                            icao24: spec_as_str(spec_obj_get(f, "icao24"@)->Some_0)->Some_0,
                            start_time: spec_as_num(
                                spec_get2(f, "start_time"@, "startTime"@)->Some_0,
                            )->Some_0,
                            end_time: spec_as_num(
                                spec_get2(f, "end_time"@, "endTime"@)->Some_0,
                            )->Some_0,
                            callsign: if spec_obj_get(f, "callsign"@) is None {
                                None
                            } else {
                                spec_as_opt_str(spec_obj_get(f, "callsign"@)->Some_0)->Some_0
                            },
                            path: ws,
                        },
                    ),
                    Err(e) => Err(e),
                },
                _ => Err(FormError::WrongType(FieldId::Path)),
            }
        },
        _ => Err(FormError::NotAnObject),
    }
}

/// Decodes a whole track from the parsed tree.
pub fn decode_track_value(v: &JsonValue) -> (r: Result<FlightTrack, FormError>)
    ensures
        match r {
            Ok(t) => spec_decode_track_value(v@) == Ok::<_, FormError>(t@),
            Err(e) => spec_decode_track_value(v@) == Err::<FlightTrackV, _>(e),
        },
{
    let f = match v {
        JsonValue::Obj(f) => f,
        _ => {
            return Err(FormError::NotAnObject);
        },
    };
    let icao24 = match crate::json::obj_get(f, "icao24") {
        None => {
            return Err(FormError::MissingField(FieldId::Icao24));
        },
        Some(w) => match crate::json::value_string(w) {
            Some(x) => x,
            None => {
                return Err(FormError::WrongType(FieldId::Icao24));
            },
        },
    };
    let start_time = match crate::flights::get2(f, "start_time", "startTime") {
        None => {
            return Err(FormError::MissingField(FieldId::StartTime));
        },
        Some(w) => match crate::json::value_num(w) {
            Some(x) => x,
            None => {
                return Err(FormError::WrongType(FieldId::StartTime));
            },
        },
    };
    let end_time = match crate::flights::get2(f, "end_time", "endTime") {
        None => {
            return Err(FormError::MissingField(FieldId::EndTime));
        },
        Some(w) => match crate::json::value_num(w) {
            Some(x) => x,
            None => {
                return Err(FormError::WrongType(FieldId::EndTime));
            },
        },
    };
    let callsign = match crate::json::obj_get(f, "callsign") {
        None => None,
        Some(w) => match crate::json::value_opt_string(w) {
            Some(x) => x,
            None => {
                return Err(FormError::WrongType(FieldId::Callsign));
            },
        },
    };
    let pw = match crate::json::obj_get(f, "path") {
        None => {
            return Err(FormError::MissingField(FieldId::Path));
        },
        Some(w) => w,
    };
    match pw {
        JsonValue::Null => {
            let t = FlightTrack { icao24, start_time, end_time, callsign, path: Vec::new() };
            proof {
                assert(t@.path =~= Seq::<WaypointV>::empty());
            }
            Ok(t)
        },
        JsonValue::Arr(items) => match decode_waypoint_list(items) {
            Ok(path) => Ok(FlightTrack { icao24, start_time, end_time, callsign, path }),
            Err(e) => Err(e),
        },
        _ => Err(FormError::WrongType(FieldId::Path)),
    }
}

/// What a track response body decodes to.
pub open spec fn spec_decode_track_bytes(bytes: Seq<u8>) -> Result<FlightTrackV, DecodeError> {
    match crate::json::spec_json_parse(bytes) {
        None => Err(DecodeError::Json),
        Some(v) => match spec_decode_track_value(v) {
            Ok(t) => Ok(t),
            Err(e) => Err(DecodeError::Form(e)),
        },
    }
}

/// Decodes a track response body.
pub fn decode_track(body: &[u8]) -> (r: Result<FlightTrack, DecodeError>)
    ensures
        match r {
            Ok(t) => spec_decode_track_bytes(body@) == Ok::<_, DecodeError>(t@),
            Err(e) => spec_decode_track_bytes(body@) == Err::<FlightTrackV, _>(e),
        },
{
    match crate::json::parse_json(body) {
        None => Err(DecodeError::Json),
        Some(v) => match decode_track_value(&v) {
            Ok(t) => Ok(t),
            Err(e) => Err(DecodeError::Form(e)),
        },
    }
}

// ---------------------------------------------------------------------------
// The canonical encoder and the round-trip laws.
// ---------------------------------------------------------------------------
/// The canonical object form of one waypoint.
pub open spec fn spec_encode_waypoint_fields(w: WaypointV) -> Seq<(Seq<char>, JsonV)> {
    seq![
        ("time"@, JsonV::Num(NumberV::Uint(w.time))),
        ("latitude"@, spec_enc_opt_num(w.latitude)),
        ("longitude"@, spec_enc_opt_num(w.longitude)),
        ("baro_altitude"@, spec_enc_opt_num(w.baro_altitude)),
        ("true_track"@, spec_enc_opt_num(w.true_track)),
        ("on_ground"@, JsonV::Bool(w.on_ground)),
    ]
}

pub open spec fn spec_encode_waypoint(w: WaypointV) -> JsonV {
    JsonV::Obj(spec_encode_waypoint_fields(w))
}

/// Builds the canonical object form of one waypoint.
pub fn encode_waypoint_value(w: &Waypoint) -> (r: JsonValue)
    ensures
        json_view(r) == spec_encode_waypoint(w@),
{
    let mut fields: Vec<(String, JsonValue)> = Vec::new();
    fields.push((String::from_str("time"), JsonValue::Num(JsonNumber::Uint(w.time))));
    fields.push((String::from_str("latitude"), crate::json::enc_opt_num(&w.latitude)));
    fields.push((String::from_str("longitude"), crate::json::enc_opt_num(&w.longitude)));
    fields.push((String::from_str("baro_altitude"), crate::json::enc_opt_num(&w.baro_altitude)));
    fields.push((String::from_str("true_track"), crate::json::enc_opt_num(&w.true_track)));
    fields.push((String::from_str("on_ground"), JsonValue::Bool(w.on_ground)));
    let r = JsonValue::Obj(fields);
    proof {
        crate::json::lemma_json_view_fields(fields@);
        assert(json_view_fields(fields@) =~= spec_encode_waypoint_fields(w@));
    }
    r
}

/// The positional array form of one waypoint: the spec-level witness the
/// dual-shape law speaks of.
pub open spec fn spec_encode_waypoint_array(w: WaypointV) -> Seq<JsonV> {
    seq![
        JsonV::Num(NumberV::Uint(w.time)),
        spec_enc_opt_num(w.latitude),
        spec_enc_opt_num(w.longitude),
        spec_enc_opt_num(w.baro_altitude),
        spec_enc_opt_num(w.true_track),
        JsonV::Bool(w.on_ground),
    ]
}

/// The canonical object form of a whole track.
pub open spec fn spec_encode_track_fields(t: FlightTrackV) -> Seq<(Seq<char>, JsonV)> {
    seq![
        ("icao24"@, JsonV::Str(t.icao24)),
        ("start_time"@, JsonV::Num(t.start_time)),
        ("end_time"@, JsonV::Num(t.end_time)),
        ("callsign"@, spec_enc_opt_str(t.callsign)),
        ("path"@, JsonV::Arr(t.path.map_values(|w: WaypointV| spec_encode_waypoint(w)))),
    ]
}

pub open spec fn spec_encode_track(t: FlightTrackV) -> JsonV {
    JsonV::Obj(spec_encode_track_fields(t))
}

/// Builds the canonical object form of a whole track.
#[verifier::loop_isolation(false)]
pub fn encode_track_value(t: &FlightTrack) -> (r: JsonValue)
    ensures
        json_view(r) == spec_encode_track(t@),
{
    let n = t.path.len();
    let mut items: Vec<JsonValue> = Vec::new();
    let mut i: usize = 0;
    proof {
        assert(json_view_seq(items@) =~= t.path@.take(0).map_values(
            |x: Waypoint| spec_encode_waypoint(x@),
        ));
    }
    while i < n
        invariant
            0 <= i <= n,
            n == t.path@.len(),
            json_view_seq(items@) == t.path@.take(i as int).map_values(
                |x: Waypoint| spec_encode_waypoint(x@),
            ),
        decreases n - i,
    {
        let ghost prev = items@;
        let item = encode_waypoint_value(&t.path[i]);
        items.push(item);
        proof {
            assert(items@.drop_last() =~= prev);
            assert(json_view_seq(items@) == json_view_seq(prev).push(
                json_view(items@.last()),
            ));
            assert(t.path@.take(i + 1) =~= t.path@.take(i as int).push(t.path@[i as int]));
            assert(t.path@.take(i + 1).map_values(|x: Waypoint| spec_encode_waypoint(x@))
                =~= t.path@.take(i as int).map_values(
                |x: Waypoint| spec_encode_waypoint(x@),
            ).push(spec_encode_waypoint(t.path@[i as int]@)));
        }
        i = i + 1;
    }
    let mut fields: Vec<(String, JsonValue)> = Vec::new();
    fields.push((String::from_str("icao24"), JsonValue::Str(t.icao24.clone())));
    fields.push((String::from_str("start_time"), JsonValue::Num(t.start_time.duplicate())));
    fields.push((String::from_str("end_time"), JsonValue::Num(t.end_time.duplicate())));
    fields.push((String::from_str("callsign"), crate::json::enc_opt_str(&t.callsign)));
    fields.push((String::from_str("path"), JsonValue::Arr(items)));
    let r = JsonValue::Obj(fields);
    proof {
        assert(t.path@.take(n as int) =~= t.path@);
        assert(t.path@.map_values(|x: Waypoint| spec_encode_waypoint(x@)) =~= t@.path.map_values(
            |w: WaypointV| spec_encode_waypoint(w),
        ));
        crate::json::lemma_json_view_fields(fields@);
        assert(json_view_fields(fields@) =~= spec_encode_track_fields(t@));
    }
    r
}

/// The canonical textual encoding of a whole track.
pub fn encode_track_canonical(t: &FlightTrack) -> (out: String)
    ensures
        out@ == crate::render::spec_render_json(spec_encode_track(t@)),
{
    let v = encode_track_value(t);
    crate::render::render_json(&v)
}

/// Law (waypoint object-form round trip): decoding the canonical object
/// form of any waypoint yields that waypoint back.
#[verifier::rlimit(100)]
pub proof fn lemma_waypoint_obj_round_trip(w: WaypointV)
    ensures
        spec_decode_waypoint_obj(spec_encode_waypoint_fields(w)) == Ok::<WaypointV, FormError>(w),
{
    let f = spec_encode_waypoint_fields(w);
    assert(spec_obj_get(f, "time"@) == Some(JsonV::Num(NumberV::Uint(w.time)))) by {
            reveal_with_fuel(crate::json::spec_obj_get, 8);
            reveal_strlit("time");
            assert("time"@.len() == 4);
    }
    assert(spec_obj_get(f, "latitude"@) == Some(spec_enc_opt_num(w.latitude))) by {
            reveal_with_fuel(crate::json::spec_obj_get, 8);
            reveal_strlit("time");
            reveal_strlit("latitude");
            assert("time"@.len() == 4);
            assert("latitude"@.len() == 8);
    }
    assert(spec_obj_get(f, "longitude"@) == Some(spec_enc_opt_num(w.longitude))) by {
            reveal_with_fuel(crate::json::spec_obj_get, 8);
            reveal_strlit("time");
            reveal_strlit("latitude");
            reveal_strlit("longitude");
            assert("time"@.len() == 4);
            assert("latitude"@.len() == 8);
            assert("longitude"@.len() == 9);
    }
    assert(spec_obj_get(f, "baro_altitude"@) == Some(spec_enc_opt_num(w.baro_altitude))) by {
            reveal_with_fuel(crate::json::spec_obj_get, 8);
            reveal_strlit("time");
            reveal_strlit("latitude");
            reveal_strlit("longitude");
            reveal_strlit("baro_altitude");
            assert("time"@.len() == 4);
            assert("latitude"@.len() == 8);
            assert("longitude"@.len() == 9);
            assert("baro_altitude"@.len() == 13);
    }
    assert(spec_obj_get(f, "true_track"@) == Some(spec_enc_opt_num(w.true_track))) by {
            reveal_with_fuel(crate::json::spec_obj_get, 8);
            reveal_strlit("time");
            reveal_strlit("latitude");
            reveal_strlit("longitude");
            reveal_strlit("baro_altitude");
            reveal_strlit("true_track");
            assert("time"@.len() == 4);
            assert("latitude"@.len() == 8);
            assert("longitude"@.len() == 9);
            assert("baro_altitude"@.len() == 13);
            assert("true_track"@.len() == 10);
    }
    assert(spec_obj_get(f, "on_ground"@) == Some(JsonV::Bool(w.on_ground))) by {
            reveal_with_fuel(crate::json::spec_obj_get, 8);
            reveal_strlit("time");
            reveal_strlit("latitude");
            reveal_strlit("longitude");
            reveal_strlit("baro_altitude");
            reveal_strlit("true_track");
            reveal_strlit("on_ground");
            assert("time"@.len() == 4);
            assert("latitude"@.len() == 8);
            assert("longitude"@.len() == 9);
            assert("baro_altitude"@.len() == 13);
            assert("true_track"@.len() == 10);
            assert("on_ground"@.len() == 9);
            assert("on_ground"@[0] != "longitude"@[0]);
            assert("on_ground"@ != "longitude"@);
    }
    assert(spec_decode_waypoint_obj(f)->Ok_0 =~= w);
}

/// Law (waypoint dual-shape equivalence): for any waypoint, decoding its
/// positional array form and decoding its keyed object form yield the
/// identical typed record.
pub proof fn lemma_waypoint_dual_shape(w: WaypointV)
    ensures
        spec_decode_waypoint(JsonV::Arr(spec_encode_waypoint_array(w))) == Ok::<
            WaypointV,
            FormError,
        >(w),
        spec_decode_waypoint(JsonV::Obj(spec_encode_waypoint_fields(w))) == Ok::<
            WaypointV,
            FormError,
        >(w),
{
    lemma_waypoint_obj_round_trip(w);
    assert(spec_encode_waypoint_array(w).len() == 6);
    assert(spec_decode_waypoint_arr(spec_encode_waypoint_array(w))->Ok_0 =~= w);
}

proof fn lemma_waypoint_list_round_trip(ws: Seq<WaypointV>)
    ensures
        spec_decode_waypoint_list(ws.map_values(|w: WaypointV| spec_encode_waypoint(w))) == Ok::<
            Seq<WaypointV>,
            FormError,
        >(ws),
    decreases ws.len(),
{
    let items = ws.map_values(|w: WaypointV| spec_encode_waypoint(w));
    if ws.len() == 0 {
        assert(items =~= Seq::<JsonV>::empty());
        assert(ws =~= Seq::<WaypointV>::empty());
    } else {
        assert(items.drop_last() =~= ws.drop_last().map_values(
            |w: WaypointV| spec_encode_waypoint(w),
        ));
        lemma_waypoint_list_round_trip(ws.drop_last());
        lemma_waypoint_obj_round_trip(ws.last());
        assert(items.last() == spec_encode_waypoint(ws.last()));
        assert(ws.drop_last().push(ws.last()) =~= ws);
    }
}

/// Law (track round trip): decoding the canonical encoding of any track
/// yields that track back.
#[verifier::rlimit(100)]
pub proof fn lemma_track_round_trip(t: FlightTrackV)
    ensures
        spec_decode_track_value(spec_encode_track(t)) == Ok::<FlightTrackV, FormError>(t),
{
    let f = spec_encode_track_fields(t);
    assert(spec_obj_get(f, "icao24"@) == Some(JsonV::Str(t.icao24))) by {
            reveal_with_fuel(crate::json::spec_obj_get, 7);
            reveal_strlit("icao24");
            assert("icao24"@.len() == 6);
    }
    assert(spec_obj_get(f, "start_time"@) == Some(JsonV::Num(t.start_time))) by {
            reveal_with_fuel(crate::json::spec_obj_get, 7);
            reveal_strlit("icao24");
            reveal_strlit("start_time");
            assert("icao24"@.len() == 6);
            assert("start_time"@.len() == 10);
    }
    assert(spec_obj_get(f, "end_time"@) == Some(JsonV::Num(t.end_time))) by {
            reveal_with_fuel(crate::json::spec_obj_get, 7);
            reveal_strlit("icao24");
            reveal_strlit("start_time");
            reveal_strlit("end_time");
            assert("icao24"@.len() == 6);
            assert("start_time"@.len() == 10);
            assert("end_time"@.len() == 8);
    }
    assert(spec_obj_get(f, "callsign"@) == Some(spec_enc_opt_str(t.callsign))) by {
            reveal_with_fuel(crate::json::spec_obj_get, 7);
            reveal_strlit("icao24");
            reveal_strlit("start_time");
            reveal_strlit("end_time");
            reveal_strlit("callsign");
            assert("icao24"@.len() == 6);
            assert("start_time"@.len() == 10);
            assert("end_time"@.len() == 8);
            assert("callsign"@.len() == 8);
            assert("callsign"@[0] != "end_time"@[0]);
            assert("callsign"@ != "end_time"@);
    }
    assert(spec_obj_get(f, "path"@) == Some(JsonV::Arr(t.path.map_values(|w: WaypointV| spec_encode_waypoint(w))))) by {
            reveal_with_fuel(crate::json::spec_obj_get, 7);
            reveal_strlit("icao24");
            reveal_strlit("start_time");
            reveal_strlit("end_time");
            reveal_strlit("callsign");
            reveal_strlit("path");
            assert("icao24"@.len() == 6);
            assert("start_time"@.len() == 10);
            assert("end_time"@.len() == 8);
            assert("callsign"@.len() == 8);
            assert("path"@.len() == 4);
    }
    lemma_waypoint_list_round_trip(t.path);
    assert(spec_decode_track_value(spec_encode_track(t))->Ok_0 =~= t);
}


// ---------------------------------------------------------------------------
// The track request and its builder.
// ---------------------------------------------------------------------------
/// A request for one aircraft's track, assembled by
/// [`TrackRequestBuilder`].
#[derive(Debug)]
pub struct TrackRequest {
    login: Option<Login>,
    icao24: String,
    time: u64,
}

/// The mathematical view of a [`TrackRequest`].
pub struct TrackRequestV {
    pub login: Option<LoginV>,
    pub icao24: Seq<char>,
    pub time: u64,
}

impl View for TrackRequest {
    type V = TrackRequestV;

    closed spec fn view(&self) -> TrackRequestV {
        TrackRequestV { login: spec_opt_login(self.login), icao24: self.icao24@, time: self.time }
    }
}

/// The exact URL of a track request.
pub open spec fn spec_track_url(r: TrackRequestV) -> Seq<char> {
    "https://"@ + spec_login_part(r.login) + "opensky-network.org/api/tracks/all?icao24="@
        + r.icao24 + "&time="@ + spec_dec_nat(r.time as nat)
}

/// The service keeps tracks for thirty days. This is the rule behind the
/// staleness warning: it holds when a nonzero requested time lies further
/// than that behind `now`.
pub fn exceeds_track_age_limit(now: u64, time: u64) -> (r: bool)
    ensures
        r == (time != 0 && now > time && now - time > 2592000),
{
    time != 0 && now > time && now - time > 2592000
}

impl TrackRequest {
    /// The URL this request will be sent to, exact to the character.
    pub fn url(&self) -> (r: String)
        ensures
            r@ == spec_track_url(self@),
    {
        let mut out = String::new();
        out.append("https://");
        crate::states::append_login_part(&mut out, &self.login);
        out.append("opensky-network.org/api/tracks/all?icao24=");
        out.append(self.icao24.as_str());
        out.append("&time=");
        crate::text::append_u64(&mut out, self.time);
        proof {
            assert(out@ =~= spec_track_url(self@));
        }
        out
    }

    /// The time this request asks about; zero means the live track.
    pub fn requested_time(&self) -> (r: u64)
        ensures
            r == self@.time,
    {
        self.time
    }
}

/// Builds a [`TrackRequest`] step by step.
pub struct TrackRequestBuilder {
    inner: TrackRequest,
}

impl TrackRequestBuilder {
    /// The request built so far.
    pub closed spec fn spec_inner(&self) -> TrackRequestV {
        self.inner@
    }

    /// A fresh builder for the given aircraft; the time starts at zero,
    /// which asks for the live track.
    pub fn new(login: Option<Login>, icao24: String) -> (r: TrackRequestBuilder)
        ensures
            r.spec_inner() == (TrackRequestV {
                login: spec_opt_login(login),
                icao24: icao24@,
                time: 0,
            }),
    {
        TrackRequestBuilder { inner: TrackRequest { login, icao24, time: 0 } }
    }

    /// Pins the time the track is asked for, in seconds since the Unix
    /// epoch.
    pub fn at_time(&mut self, time: u64)
        ensures
            final(self).spec_inner() == (TrackRequestV { time, ..old(self).spec_inner() }),
    {
        self.inner.time = time;
    }

    /// Consumes this builder and returns the request.
    pub fn consume(self) -> (r: TrackRequest)
        ensures
            r@ == self.spec_inner(),
    {
        self.inner
    }
}

} // verus!
