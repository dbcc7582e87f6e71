use opensky_api::errors::{DecodeError, FieldId, FormError};
use opensky_api::json::JsonNumber;
use opensky_api::tracks::{FlightTrack, Waypoint};
use opensky_api::Flight;

fn wire_flight() -> &'static str {
    r#"{"icao24":"8990ed","firstSeen":1517227200,"estDepartureAirport":"RCTP","lastSeen":1517230800,"estArrivalAirport":null,"callsign":"CAL123  ","estDepartureAirportHorizDistance":200,"estDepartureAirportVertDistance":50,"estArrivalAirportHorizDistance":null,"estArrivalAirportVertDistance":null,"departureAirportCandidatesCount":1,"arrivalAirportCandidatesCount":2}"#
}

fn expected_flight() -> Flight {
    Flight {
        icao24: "8990ed".to_string(),
        first_seen: 1517227200,
        est_departure_airport: Some("RCTP".to_string()),
        last_seen: 1517230800,
        est_arrival_airport: None,
        callsign: Some("CAL123  ".to_string()),
        est_departure_airport_horiz_distance: Some(200),
        est_departure_airport_vert_distance: Some(50),
        est_arrival_airport_horiz_distance: None,
        est_arrival_airport_vert_distance: None,
        departure_airport_candidates_count: 1,
        arrival_airport_candidates_count: 2,
    }
}

#[test]
fn flights_decode_from_the_wire_names() {
    let body = format!("[{}]", wire_flight());
    let flights = opensky_api::flights::decode_flights(body.as_bytes()).unwrap();
    assert_eq!(flights.len(), 1);
    assert_eq!(flights[0], expected_flight());
}

#[test]
fn absent_optional_flight_fields_decode_to_none() {
    let body = r#"[{"icao24":"8990ed","firstSeen":10,"lastSeen":20,"departureAirportCandidatesCount":0,"arrivalAirportCandidatesCount":0}]"#;
    let flights = opensky_api::flights::decode_flights(body.as_bytes()).unwrap();
    assert_eq!(flights[0].callsign, None);
    assert_eq!(flights[0].est_departure_airport, None);
    assert_eq!(flights[0].est_departure_airport_horiz_distance, None);
}

#[test]
fn flights_round_trip_through_the_canonical_encoding() {
    let body = format!("[{}]", wire_flight());
    let flights = opensky_api::flights::decode_flights(body.as_bytes()).unwrap();
    let text = opensky_api::flights::encode_flights_canonical(&flights);
    let again = opensky_api::flights::decode_flights(text.as_bytes()).unwrap();
    assert_eq!(again, flights);
}

#[test]
fn flight_errors_carry_field_context() {
    let not_array = opensky_api::flights::decode_flights(b"{}").unwrap_err();
    assert_eq!(not_array, DecodeError::Form(FormError::NotAnArray));

    let missing = opensky_api::flights::decode_flights(br#"[{"icao24":"ab"}]"#).unwrap_err();
    assert_eq!(missing, DecodeError::Form(FormError::MissingField(FieldId::FirstSeen)));

    let too_big = r#"[{"icao24":"ab","firstSeen":1,"lastSeen":2,"departureAirportCandidatesCount":70000,"arrivalAirportCandidatesCount":0}]"#;
    let err = opensky_api::flights::decode_flights(too_big.as_bytes()).unwrap_err();
    assert_eq!(
        err,
        DecodeError::Form(FormError::WrongType(FieldId::DepartureAirportCandidatesCount))
    );

    let not_json = opensky_api::flights::decode_flights(b"--").unwrap_err();
    assert_eq!(not_json, DecodeError::Json);
}

#[test]
fn tracks_decode_waypoints_from_both_shapes() {
    let body = r#"{"icao24":"8990ed","startTime":1587126000.5,"endTime":1587129000,"callsign":"CAL123  ","path":[[1587126010,24.0823,120.23,0,95,false],{"time":1587126310,"latitude":null,"longitude":null,"baro_altitude":null,"true_track":null,"on_ground":true}]}"#;
    let track = opensky_api::tracks::decode_track(body.as_bytes()).unwrap();
    assert_eq!(track.icao24, "8990ed");
    assert_eq!(track.start_time, JsonNumber::Text("1587126000.5".to_string()));
    assert_eq!(track.end_time, JsonNumber::Uint(1587129000));
    assert_eq!(track.path.len(), 2);
    assert_eq!(
        track.path[0],
        Waypoint {
            time: 1587126010,
            latitude: Some(JsonNumber::Text("24.0823".to_string())),
            longitude: Some(JsonNumber::Text("120.23".to_string())),
            baro_altitude: Some(JsonNumber::Uint(0)),
            true_track: Some(JsonNumber::Uint(95)),
            on_ground: false,
        }
    );
    assert_eq!(
        track.path[1],
        Waypoint {
            time: 1587126310,
            latitude: None,
            longitude: None,
            baro_altitude: None,
            true_track: None,
            on_ground: true,
        }
    );
}

#[test]
fn null_path_decodes_to_an_empty_path() {
    let body = r#"{"icao24":"ab","startTime":1,"endTime":2,"callsign":null,"path":null}"#;
    let track = opensky_api::tracks::decode_track(body.as_bytes()).unwrap();
    assert!(track.path.is_empty());
    assert_eq!(track.callsign, None);
}

#[test]
fn tracks_round_trip_through_the_canonical_encoding() {
    let original = FlightTrack {
        icao24: "8990ed".to_string(),
        start_time: JsonNumber::Text("1587126000.5".to_string()),
        end_time: JsonNumber::Uint(1587129000),
        callsign: Some("CAL123  ".to_string()),
        path: vec![
            Waypoint {
                time: 1587126010,
                latitude: Some(JsonNumber::Text("24.0823".to_string())),
                longitude: Some(JsonNumber::Text("120.23".to_string())),
                baro_altitude: Some(JsonNumber::Uint(0)),
                true_track: Some(JsonNumber::Uint(95)),
                on_ground: false,
            },
        ],
    };
    let text = opensky_api::tracks::encode_track_canonical(&original);
    let again = opensky_api::tracks::decode_track(text.as_bytes()).unwrap();
    assert_eq!(again, original);
}

#[test]
fn waypoint_length_errors_report_the_observed_length() {
    let body = r#"{"icao24":"ab","startTime":1,"endTime":2,"path":[[1,2,3]]}"#;
    let err = opensky_api::tracks::decode_track(body.as_bytes()).unwrap_err();
    assert_eq!(err, DecodeError::Form(FormError::WrongLength { observed: 3 }));
}

#[test]
fn track_errors_carry_field_context() {
    let missing_path =
        opensky_api::tracks::decode_track(br#"{"icao24":"ab","startTime":1,"endTime":2}"#)
            .unwrap_err();
    assert_eq!(missing_path, DecodeError::Form(FormError::MissingField(FieldId::Path)));

    let bad_start =
        opensky_api::tracks::decode_track(br#"{"icao24":"ab","startTime":"x","endTime":2,"path":null}"#)
            .unwrap_err();
    assert_eq!(bad_start, DecodeError::Form(FormError::WrongType(FieldId::StartTime)));
}

#[test]
fn track_times_accept_the_snake_case_aliases() {
    let body = r#"{"icao24":"ab","start_time":1.5,"end_time":2,"path":null}"#;
    let track = opensky_api::tracks::decode_track(body.as_bytes()).unwrap();
    assert_eq!(track.start_time, JsonNumber::Text("1.5".to_string()));
    assert_eq!(track.end_time, JsonNumber::Uint(2));
}
