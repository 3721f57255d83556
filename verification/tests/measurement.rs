use aquachain_gateway::measurement::{DroneMeasurement, MeasurementError};
use aquachain_gateway::relay::build_submit_data_msg;

fn sample() -> DroneMeasurement {
    DroneMeasurement {
        lat: "28.70".into(),
        lon: "77.22".into(),
        turbidity: "14.2".into(),
        image_hash: "sha256:abc123".into(),
        flight_id: "yamuna-drone-001".into(),
        sensor_id: Some(1),
        unit: None,
        site: Some("Yamuna Wazirabad, Delhi NCR, India".into()),
    }
}

#[test]
fn valid_measurement_passes() {
    assert!(sample().validate().is_ok());
}

#[test]
fn rejects_empty_flight_id() {
    let mut m = sample();
    m.flight_id = "  ".into();
    assert_eq!(m.validate(), Err(MeasurementError::MissingFlightId));
}

#[test]
fn rejects_out_of_range_lat() {
    let mut m = sample();
    m.lat = "91".into();
    assert_eq!(m.validate(), Err(MeasurementError::InvalidLat));
}

#[test]
fn chain_payload_uses_string_numbers() {
    let data = sample().to_chain_data();
    assert_eq!(data.source, "drone_agent");
    assert_eq!(data.value, "14.2");
    assert_eq!(data.unit, "NTU");
    assert_eq!(data.site.as_deref(), Some("Yamuna Wazirabad, Delhi NCR, India"));
}

#[test]
fn submit_data_msg_shape() {
    let m = DroneMeasurement {
        lat: "28.70".into(),
        lon: "77.22".into(),
        turbidity: "10".into(),
        image_hash: "abc".into(),
        flight_id: "f1".into(),
        sensor_id: Some(3),
        unit: None,
        site: None,
    };
    let msg = build_submit_data_msg(3, m.to_chain_data());
    assert_eq!(msg.sensor_id, 3);
    assert_eq!(msg.data.source, "drone_agent");
}

#[test]
fn checks_run_in_order() {
    let mut m = sample();
    m.flight_id = "".into();
    m.image_hash = "".into();
    m.lat = "x".into();
    assert_eq!(m.validate(), Err(MeasurementError::MissingFlightId));
    m.flight_id = "f".into();
    assert_eq!(m.validate(), Err(MeasurementError::MissingImageHash));
    m.image_hash = "\u{3000}h\t".into();
    assert_eq!(m.validate(), Err(MeasurementError::InvalidLat));
    m.lat = "-90".into();
    m.lon = "180.5".into();
    assert_eq!(m.validate(), Err(MeasurementError::InvalidLon));
    m.lon = " -180 ".into();
    m.turbidity = "-0.5".into();
    assert_eq!(m.validate(), Err(MeasurementError::InvalidTurbidity));
    m.turbidity = "-0".into();
    assert_eq!(m.validate(), Ok(()));
}

#[test]
fn words_are_not_turbidity_decimals() {
    for word in ["NaN", "nan", "inf", "-inf", "+Infinity"] {
        let mut m = sample();
        m.turbidity = word.into();
        assert_eq!(m.validate(), Err(MeasurementError::InvalidTurbidity), "{:?}", word);
    }
}

#[test]
fn unicode_whitespace_is_blank() {
    let mut m = sample();
    m.image_hash = "\u{2003}\u{a0}\n".into();
    assert_eq!(m.validate(), Err(MeasurementError::MissingImageHash));
}

#[test]
fn error_messages() {
    assert_eq!(MeasurementError::InvalidLat.message(), "lat must be a decimal between -90 and 90");
    assert_eq!(MeasurementError::InvalidLon.message(), "lon must be a decimal between -180 and 180");
    assert_eq!(MeasurementError::InvalidTurbidity.message(), "turbidity must be a non-negative decimal");
    assert_eq!(MeasurementError::MissingImageHash.message(), "image_hash must not be empty");
    assert_eq!(MeasurementError::MissingFlightId.message(), "flight_id must not be empty");
}

#[test]
fn chain_data_keeps_given_unit() {
    let mut m = sample();
    m.unit = Some("FNU".into());
    m.site = None;
    let d = m.to_chain_data();
    assert_eq!(d.unit, "FNU");
    assert_eq!(d.site, None);
    assert_eq!(d.flight_id, "yamuna-drone-001");
    assert_eq!(d.lat, "28.70");
    assert_eq!(d.lon, "77.22");
    assert_eq!(d.image_hash, "sha256:abc123");
}
