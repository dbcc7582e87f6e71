use opensky_api::errors::{DecodeError, FieldId, FormError};
use opensky_api::json::JsonNumber;
use opensky_api::states::{AirCraftCategory, PositionSource, SchemaForm, StateVector, States};

fn fixture_body() -> &'static str {
    r#"{"time":1458564121,"states":[["3c6444","DLH9LF  ","Germany",1458564120,1458564120,6.1546,50.1964,9639.3,false,232.88,98.26,4.55,null,9547.86,"1000",false,0,null]]}"#
}

fn fixture_canonical() -> &'static str {
    r#"{"time":1458564121,"states":[{"icao24":"3c6444","callsign":"DLH9LF  ","origin_country":"Germany","time_position":1458564120,"last_contact":1458564120,"longitude":6.1546,"latitude":50.1964,"baro_altitude":9639.3,"on_ground":false,"velocity":232.88,"true_track":98.26,"vertical_rate":4.55,"sensors":null,"geo_altitude":9547.86,"squawk":"1000","spi":false,"position_source":"ADSB","category":null}]}"#
}

fn fixture_state_vector() -> StateVector {
    StateVector {
        icao24: "3c6444".to_string(),
        callsign: Some("DLH9LF  ".to_string()),
        origin_country: "Germany".to_string(),
        time_position: Some(1458564120),
        last_contact: 1458564120,
        longitude: Some(JsonNumber::Text("6.1546".to_string())),
        latitude: Some(JsonNumber::Text("50.1964".to_string())),
        baro_altitude: Some(JsonNumber::Text("9639.3".to_string())),
        on_ground: false,
        velocity: Some(JsonNumber::Text("232.88".to_string())),
        true_track: Some(JsonNumber::Text("98.26".to_string())),
        vertical_rate: Some(JsonNumber::Text("4.55".to_string())),
        sensors: None,
        geo_altitude: Some(JsonNumber::Text("9547.86".to_string())),
        squawk: Some("1000".to_string()),
        spi: false,
        position_source: PositionSource::ADSB,
        category: None,
    }
}

#[test]
fn end_to_end_fixture_decodes_and_reencodes_exactly() {
    let (decoded, report) =
        opensky_api::states::decode_states(fixture_body().as_bytes(), None).unwrap();
    assert_eq!(decoded.time, 1458564121);
    assert_eq!(decoded.states.len(), 1);
    assert_eq!(decoded.states[0], fixture_state_vector());
    assert_eq!(report.form, SchemaForm::Long);
    assert!(!report.time_defaulted);
    assert!(!report.enum_fallback);

    let out = opensky_api::states::encode_states_canonical(&decoded);
    assert_eq!(out, fixture_canonical());
}

#[test]
fn canonical_encoding_round_trips() {
    let original = States {
        time: 77,
        states: vec![fixture_state_vector()],
    };
    let text = opensky_api::states::encode_states_canonical(&original);
    let (again, report) =
        opensky_api::states::decode_states(text.as_bytes(), Some(123)).unwrap();
    assert_eq!(again, original);
    assert_eq!(report.form, SchemaForm::Short);
    let (again2, report2) = opensky_api::states::decode_states(text.as_bytes(), None).unwrap();
    assert_eq!(again2, original);
    assert_eq!(report2.form, SchemaForm::Long);
}

#[test]
fn seventeen_element_array_decodes_without_category() {
    let body = r#"[["3c6444","DLH9LF  ","Germany",1458564120,1458564120,6.1546,50.1964,9639.3,false,232.88,98.26,4.55,null,9547.86,"1000",false,0]]"#;
    let parsed = opensky_api::json::parse_json(body.as_bytes()).unwrap();
    let arr = match parsed {
        opensky_api::json::JsonValue::Arr(items) => items,
        _ => panic!("expected an array"),
    };
    let (sv, warn) = opensky_api::states::decode_state_vector(&arr[0]).unwrap();
    assert_eq!(sv.category, None);
    assert_eq!(sv, fixture_state_vector());
    assert!(!warn);
}

#[test]
fn eighteen_element_array_decodes_category_from_tail() {
    let body = r#"["3c6444","DLH9LF  ","Germany",1458564120,1458564120,6.1546,50.1964,9639.3,false,232.88,98.26,4.55,null,9547.86,"1000",false,0,2]"#;
    let parsed = opensky_api::json::parse_json(body.as_bytes()).unwrap();
    let (sv, warn) = opensky_api::states::decode_state_vector(&parsed).unwrap();
    assert_eq!(sv.category, Some(AirCraftCategory::Light));
    assert!(!warn);
}

#[test]
fn other_lengths_report_the_observed_length() {
    let body = r#"["3c6444","DLH9LF  ","Germany"]"#;
    let parsed = opensky_api::json::parse_json(body.as_bytes()).unwrap();
    let err = opensky_api::states::decode_state_vector(&parsed).unwrap_err();
    assert_eq!(err, FormError::WrongLength { observed: 3 });
}

#[test]
fn null_states_collection_decodes_to_empty() {
    let body = r#"{"time": 1458564121, "states": null}"#;
    let (decoded, report) = opensky_api::states::decode_states(body.as_bytes(), None).unwrap();
    assert_eq!(decoded.time, 1458564121);
    assert!(decoded.states.is_empty());
    assert!(!report.enum_fallback);
}

#[test]
fn unknown_position_source_ordinal_falls_back_to_adsb() {
    assert_eq!(PositionSource::from_ordinal(99), PositionSource::ADSB);
    let body = r#"{"time":1,"states":[["3c6444",null,"Germany",null,5,null,null,null,false,null,null,null,null,null,null,false,99,null]]}"#;
    let (decoded, report) = opensky_api::states::decode_states(body.as_bytes(), None).unwrap();
    assert_eq!(decoded.states[0].position_source, PositionSource::ADSB);
    assert!(report.enum_fallback);
}

#[test]
fn position_source_name_mlat_decodes_to_mlat() {
    assert_eq!(PositionSource::from_name("MLAT"), PositionSource::MLAT);
    let body = r#"{"time":1,"states":[["3c6444",null,"Germany",null,5,null,null,null,false,null,null,null,null,null,null,false,"MLAT",null]]}"#;
    let (decoded, report) = opensky_api::states::decode_states(body.as_bytes(), None).unwrap();
    assert_eq!(decoded.states[0].position_source, PositionSource::MLAT);
    assert!(!report.enum_fallback);
}

#[test]
fn long_form_failure_falls_back_to_short_form() {
    // A 17-element record refuses the long-form parse (it wants 18
    // elements) and satisfies the short form of the same bytes.
    let body = r#"{"time":9,"states":[["3c6444",null,"Germany",null,5,null,null,null,false,null,null,null,null,null,null,false,1]]}"#;
    let (decoded, report) = opensky_api::states::decode_states(body.as_bytes(), None).unwrap();
    assert_eq!(report.form, SchemaForm::Short);
    assert_eq!(decoded.states[0].position_source, PositionSource::ASTERIX);
    assert_eq!(decoded.states[0].category, None);
}

#[test]
fn pinned_time_goes_straight_to_the_short_form() {
    let body = r#"{"time":9,"states":[["3c6444",null,"Germany",null,5,null,null,null,false,null,null,null,null,null,null,false,1]]}"#;
    let (_, report) =
        opensky_api::states::decode_states(body.as_bytes(), Some(9)).unwrap();
    assert_eq!(report.form, SchemaForm::Short);
    // And an 18-element record then refuses: historical snapshots only
    // ever use the short form.
    let err = opensky_api::states::decode_states(fixture_body().as_bytes(), Some(9)).unwrap_err();
    assert_eq!(err, DecodeError::Form(FormError::WrongLength { observed: 18 }));
}

#[test]
fn both_forms_failing_reports_both_failures() {
    let body = r#"{"time":9,"states":[["3c6444"]]}"#;
    let err = opensky_api::states::decode_states(body.as_bytes(), None).unwrap_err();
    assert_eq!(
        err,
        DecodeError::BothForms {
            long: FormError::WrongLength { observed: 1 },
            short: FormError::WrongLength { observed: 1 },
        }
    );
}

#[test]
fn null_time_uses_the_requested_time_or_refuses() {
    let body = r#"{"time":null,"states":null}"#;
    let (decoded, report) =
        opensky_api::states::decode_states(body.as_bytes(), Some(555)).unwrap();
    assert_eq!(decoded.time, 555);
    assert!(report.time_defaulted);

    let err = opensky_api::states::decode_states(body.as_bytes(), None).unwrap_err();
    assert_eq!(
        err,
        DecodeError::BothForms {
            long: FormError::NullField(FieldId::Time),
            short: FormError::NullField(FieldId::Time),
        }
    );
}

#[test]
fn shape_and_type_errors_carry_context() {
    let not_json = opensky_api::states::decode_states(b"not json at all", None).unwrap_err();
    assert_eq!(not_json, DecodeError::Json);

    let not_an_object =
        opensky_api::states::decode_states(b"[1,2,3]", Some(1)).unwrap_err();
    assert_eq!(not_an_object, DecodeError::Form(FormError::NotAnObject));

    let missing_time = opensky_api::states::decode_states(b"{}", Some(1)).unwrap_err();
    assert_eq!(missing_time, DecodeError::Form(FormError::MissingField(FieldId::Time)));

    let bad_time =
        opensky_api::states::decode_states(br#"{"time":"x","states":null}"#, Some(1)).unwrap_err();
    assert_eq!(bad_time, DecodeError::Form(FormError::WrongType(FieldId::Time)));

    let bad_states =
        opensky_api::states::decode_states(br#"{"time":1,"states":7}"#, Some(1)).unwrap_err();
    assert_eq!(bad_states, DecodeError::Form(FormError::WrongType(FieldId::States)));

    let bad_icao = r#"{"time":9,"states":[[7,null,"Germany",null,5,null,null,null,false,null,null,null,null,null,null,false,1]]}"#;
    let err = opensky_api::states::decode_states(bad_icao.as_bytes(), Some(9)).unwrap_err();
    assert_eq!(err, DecodeError::Form(FormError::WrongType(FieldId::Icao24)));
}

#[test]
fn object_form_decodes_to_the_same_record_as_the_array_form() {
    let array_body = fixture_body();
    let (from_array, _) =
        opensky_api::states::decode_states(array_body.as_bytes(), None).unwrap();
    let (from_objects, _) =
        opensky_api::states::decode_states(fixture_canonical().as_bytes(), None).unwrap();
    assert_eq!(from_array, from_objects);
}

#[test]
fn sensors_and_squawk_survive_a_round_trip() {
    let body = r#"{"time":1,"states":[["ab1234","X       ","Nowhere",null,5,null,null,null,true,null,null,null,[1,2,3],null,"7700",true,3,"Heavy"]]}"#;
    let (decoded, report) = opensky_api::states::decode_states(body.as_bytes(), None).unwrap();
    let sv = &decoded.states[0];
    assert_eq!(sv.sensors, Some(vec![1, 2, 3]));
    assert_eq!(sv.squawk, Some("7700".to_string()));
    assert_eq!(sv.position_source, PositionSource::FLARM);
    assert_eq!(sv.category, Some(AirCraftCategory::Heavy));
    assert!(!report.enum_fallback);

    let text = opensky_api::states::encode_states_canonical(&decoded);
    let (again, _) = opensky_api::states::decode_states(text.as_bytes(), None).unwrap();
    assert_eq!(again, decoded);
}

#[test]
fn category_names_round_trip_through_the_codec() {
    let all = [
        AirCraftCategory::NoInformation,
        AirCraftCategory::NoADSB,
        AirCraftCategory::Light,
        AirCraftCategory::Small,
        AirCraftCategory::Large,
        AirCraftCategory::HighVortexLarge,
        AirCraftCategory::Heavy,
        AirCraftCategory::HighPerformance,
        AirCraftCategory::Rotorcraft,
        AirCraftCategory::Glider,
        AirCraftCategory::LighterThanAir,
        AirCraftCategory::Parachutist,
        AirCraftCategory::Ultralight,
        AirCraftCategory::Reserved,
        AirCraftCategory::UAV,
        AirCraftCategory::Space,
        AirCraftCategory::SurfaceEmergency,
        AirCraftCategory::SurfaceService,
        AirCraftCategory::PointObstacle,
        AirCraftCategory::ClusterObstacle,
        AirCraftCategory::LineObstacle,
    ];
    for (i, c) in all.iter().enumerate() {
        assert_eq!(AirCraftCategory::from_name(c.name()), *c);
        assert_eq!(AirCraftCategory::from_ordinal(i as u64), *c);
    }
    assert_eq!(
        AirCraftCategory::from_ordinal(21),
        AirCraftCategory::NoInformation
    );
    assert_eq!(
        AirCraftCategory::from_name("SomethingNew"),
        AirCraftCategory::NoInformation
    );
}
