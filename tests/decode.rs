use gpsd::{
    DeviceObject, JsonNumber, JsonValue, ParseError, Response, TpvResponse, Timestamp, WatchObject,
    decode, parse_json,
};

fn float_number(x: f64) -> JsonNumber {
    JsonNumber::Float(x.to_bits())
}

const FIX3D: &str = "{\"class\":\"TPV\",\"device\":\"/dev/pts/1\",\"time\":\"2005-06-08T10:34:48.283Z\",\"ept\":0.005,\"lat\":46.498293369,\"lon\":7.567411672,\"alt\":1343.127,\"eph\":36.000,\"epv\":32.321,\"track\":10.3788,\"speed\":0.091,\"climb\":-0.085,\"mode\":3}\n";

#[test]
fn fix3d_with_all_fields() {
    let line = "{\"class\":\"TPV\",\"device\":\"/dev/pts/1\",\"time\":\"2005-06-08T10:34:48.283Z\",\"ept\":0.005,\"lat\":46.498293369,\"lon\":7.567411672,\"alt\":1343.127,\"epv\":32.321,\"track\":10.3788,\"speed\":0.091,\"climb\":-0.085,\"mode\":3}\n";
    let r = decode(line).unwrap();
    match r {
        Response::Tpv(TpvResponse::Fix3D { device, time, mode, time_err, lat, lon, alt, alt_err, track, speed, climb, lat_err, .. }) => {
            assert_eq!(device, Some("/dev/pts/1".to_string()));
            assert_eq!(time, Timestamp { secs: 1118226888, nanos: 283000000 });
            assert_eq!(mode, 3);
            assert_eq!(time_err, float_number(0.005));
            assert_eq!(lat, float_number(46.498293369));
            assert_eq!(lon, float_number(7.567411672));
            assert_eq!(alt, float_number(1343.127));
            assert_eq!(alt_err, Some(float_number(32.321)));
            assert_eq!(track, Some(float_number(10.3788)));
            assert_eq!(speed, float_number(0.091));
            assert_eq!(climb, float_number(-0.085));
            assert_eq!(lat_err, None);
        }
        other => panic!("unexpected {:?}", other),
    }
}

#[test]
fn unknown_member_falls_to_dustbin() {
    // `eph` is not a member any specific shape declares.
    match decode(FIX3D).unwrap() {
        Response::Tpv(TpvResponse::Dustbin { mode, lat, alt, .. }) => {
            assert_eq!(mode, Some(3));
            assert_eq!(lat, Some(float_number(46.498293369)));
            assert_eq!(alt, Some(float_number(1343.127)));
        }
        other => panic!("unexpected {:?}", other),
    }
}

#[test]
fn fix2d_without_altitude() {
    let line = "{\"class\":\"TPV\",\"time\":\"2017-01-01T00:00:00Z\",\"ept\":1,\"lat\":1.5,\"lon\":-2,\"speed\":0,\"mode\":2}";
    match decode(line).unwrap() {
        Response::Tpv(TpvResponse::Fix2D { time, mode, time_err, lat, lon, speed, device, .. }) => {
            assert_eq!(time, Timestamp { secs: 1483228800, nanos: 0 });
            assert_eq!(mode, 2);
            assert_eq!(time_err, JsonNumber::PosInt(1));
            assert_eq!(lat, float_number(1.5));
            assert_eq!(lon, JsonNumber::NegInt(-2));
            assert_eq!(speed, JsonNumber::PosInt(0));
            assert_eq!(device, None);
        }
        other => panic!("unexpected {:?}", other),
    }
}

#[test]
fn lat_lon_without_speed() {
    let line = "{\"class\":\"TPV\",\"time\":\"2017-01-01T00:00:00Z\",\"ept\":1,\"lat\":1.5,\"lon\":2.5,\"alt\":10,\"mode\":3}";
    match decode(line).unwrap() {
        Response::Tpv(TpvResponse::LatLonOnly { alt, speed, climb, .. }) => {
            assert_eq!(alt, Some(JsonNumber::PosInt(10)));
            assert_eq!(speed, None);
            assert_eq!(climb, None);
        }
        other => panic!("unexpected {:?}", other),
    }
}

#[test]
fn mode_one_without_position_is_no_fix() {
    let line = "{\"class\":\"TPV\",\"device\":\"/dev/ttyUSB0\",\"time\":\"2017-01-01T00:00:00Z\",\"mode\":1}";
    let r = decode(line).unwrap();
    assert_eq!(
        r,
        Response::Tpv(TpvResponse::NoFix {
            device: Some("/dev/ttyUSB0".to_string()),
            time: Timestamp { secs: 1483228800, nanos: 0 },
            mode: 1,
        })
    );
}

#[test]
fn bare_tpv_is_nothing() {
    let r = decode("{\"class\":\"TPV\",\"mode\":0}").unwrap();
    assert_eq!(r, Response::Tpv(TpvResponse::Nothing { device: None, time: None, mode: Some(0) }));
}

#[test]
fn mistyped_tpv_is_dustbin_not_error() {
    let r = decode("{\"class\":\"TPV\",\"lat\":\"north\",\"mode\":3.0,\"time\":\"yesterday\",\"speed\":2}").unwrap();
    match r {
        Response::Tpv(TpvResponse::Dustbin { lat, mode, time, speed, device, .. }) => {
            assert_eq!(lat, None);
            assert_eq!(mode, None);
            assert_eq!(time, None);
            assert_eq!(speed, Some(JsonNumber::PosInt(2)));
            assert_eq!(device, None);
        }
        other => panic!("unexpected {:?}", other),
    }
}

#[test]
fn decoding_twice_gives_equal_responses() {
    let a = decode(FIX3D);
    let b = decode(FIX3D);
    assert_eq!(a, b);
    let c = decode("{\"class\":\"VERSION\"}");
    let d = decode("{\"class\":\"VERSION\"}");
    assert_eq!(c, d);
}

#[test]
fn version_response() {
    let r = decode("{\"class\":\"VERSION\",\"release\":\"3.17\",\"rev\":\"x\",\"proto_major\":3,\"proto_minor\":11}").unwrap();
    assert_eq!(
        r,
        Response::Version {
            release: "3.17".to_string(),
            rev: "x".to_string(),
            proto_major: 3,
            proto_minor: 11,
            remote: None,
        }
    );
}

#[test]
fn version_missing_field_is_shape_mismatch() {
    let r = decode("{\"class\":\"VERSION\",\"release\":\"3.17\",\"proto_major\":3,\"proto_minor\":11}");
    assert_eq!(r, Err(ParseError::ShapeMismatch));
}

#[test]
fn not_json_is_syntax_error() {
    assert_eq!(decode("$GPGGA,123519,4807.038,N*47\n"), Err(ParseError::Syntax));
    assert_eq!(decode("{\"class\":"), Err(ParseError::Syntax));
}

#[test]
fn unknown_or_missing_class() {
    assert_eq!(decode("{\"class\":\"FOO\"}"), Err(ParseError::UnknownClass));
    assert_eq!(decode("{\"mode\":3}"), Err(ParseError::UnknownClass));
    assert_eq!(decode("{\"class\":7}"), Err(ParseError::UnknownClass));
    assert_eq!(decode("[1,2]"), Err(ParseError::UnknownClass));
}

#[test]
fn error_response() {
    let r = decode("{\"class\":\"ERROR\",\"message\":\"Unrecognized request\"}").unwrap();
    assert_eq!(r, Response::Error { message: "Unrecognized request".to_string() });
}

#[test]
fn watch_defaults_fill_missing_fields() {
    let r = decode("{\"class\":\"WATCH\"}").unwrap();
    assert_eq!(r, Response::Watch(WatchObject::default()));
    let r = decode("{\"class\":\"WATCH\",\"enable\":false,\"json\":true,\"raw\":2,\"device\":\"/dev/gps\"}").unwrap();
    assert_eq!(
        r,
        Response::Watch(WatchObject {
            enable: false,
            json: true,
            nmea: false,
            raw: Some(2),
            scaled: false,
            split24: false,
            pps: false,
            device: Some("/dev/gps".to_string()),
            remote: None,
        })
    );
    assert_eq!(decode("{\"class\":\"WATCH\",\"json\":1}"), Err(ParseError::ShapeMismatch));
}

#[test]
fn default_watch_round_trip() {
    let w = WatchObject::default();
    let mut m = serde_json::Map::new();
    m.insert("class".to_string(), serde_json::Value::from("WATCH"));
    m.insert("enable".to_string(), serde_json::Value::from(w.enable));
    m.insert("json".to_string(), serde_json::Value::from(w.json));
    m.insert("nmea".to_string(), serde_json::Value::from(w.nmea));
    m.insert("raw".to_string(), serde_json::Value::Null);
    m.insert("scaled".to_string(), serde_json::Value::from(w.scaled));
    m.insert("split24".to_string(), serde_json::Value::from(w.split24));
    m.insert("pps".to_string(), serde_json::Value::from(w.pps));
    m.insert("device".to_string(), serde_json::Value::Null);
    m.insert("remote".to_string(), serde_json::Value::Null);
    let text = serde_json::Value::Object(m).to_string();
    let r = decode(&text).unwrap();
    assert_eq!(
        r,
        Response::Watch(WatchObject {
            enable: true,
            json: false,
            nmea: false,
            raw: None,
            scaled: false,
            split24: false,
            pps: false,
            device: None,
            remote: None,
        })
    );
}

#[test]
fn sky_with_satellites() {
    let line = "{\"class\":\"SKY\",\"device\":\"/dev/pts/1\",\"hdop\":1.2,\"satellites\":[{\"PRN\":23,\"el\":6,\"az\":84,\"ss\":0,\"used\":false},{\"PRN\":28,\"el\":7,\"az\":160,\"ss\":30,\"used\":true,\"gnssid\":0}]}";
    match decode(line).unwrap() {
        Response::Sky(s) => {
            assert_eq!(s.device, Some("/dev/pts/1".to_string()));
            assert_eq!(s.hdop, Some(float_number(1.2)));
            assert_eq!(s.xdop, None);
            assert_eq!(s.satellites.len(), 2);
            assert_eq!(s.satellites[0].prn, 23);
            assert_eq!(s.satellites[0].azimuth, 84);
            assert_eq!(s.satellites[0].elevation, 6);
            assert_eq!(s.satellites[1].signal_strength, 30);
            assert!(s.satellites[1].used);
        }
        other => panic!("unexpected {:?}", other),
    }
    let bad = "{\"class\":\"SKY\",\"satellites\":[{\"PRN\":23,\"el\":6,\"az\":84.5,\"ss\":0,\"used\":false}]}";
    assert_eq!(decode(bad), Err(ParseError::ShapeMismatch));
    assert_eq!(decode("{\"class\":\"SKY\"}"), Err(ParseError::ShapeMismatch));
}

#[test]
fn poll_response() {
    let line = "{\"class\":\"POLL\",\"time\":\"2017-01-01T00:00:00Z\",\"active\":1,\"tpv\":[{\"class\":\"TPV\",\"mode\":1,\"time\":\"2017-01-01T00:00:00Z\"}],\"sky\":[{\"class\":\"SKY\",\"satellites\":[]}]}";
    match decode(line).unwrap() {
        Response::Poll { time, active, tpv, sky } => {
            assert_eq!(time, Timestamp { secs: 1483228800, nanos: 0 });
            assert_eq!(active, 1);
            assert_eq!(tpv.len(), 1);
            assert!(matches!(tpv[0], TpvResponse::NoFix { mode: 1, .. }));
            assert_eq!(sky.len(), 1);
            assert!(sky[0].satellites.is_empty());
        }
        other => panic!("unexpected {:?}", other),
    }
    let bad = "{\"class\":\"POLL\",\"time\":\"2017-01-01T00:00:00Z\",\"active\":1,\"tpv\":[3],\"sky\":[]}";
    assert_eq!(decode(bad), Err(ParseError::ShapeMismatch));
}

#[test]
fn device_variants() {
    let seen = "{\"class\":\"DEVICE\",\"path\":\"/dev/pts/1\",\"activated\":\"2017-01-01T00:00:00Z\",\"flags\":1,\"driver\":\"NMEA0183\",\"bps\":4800,\"cycle\":1.00}";
    match decode(seen).unwrap() {
        Response::Device(DeviceObject::ActiveSeenPackets { path, flags, driver, bps, cycle, native, .. }) => {
            assert_eq!(path, Some("/dev/pts/1".to_string()));
            assert_eq!(flags, 1);
            assert_eq!(driver, "NMEA0183".to_string());
            assert_eq!(bps, Some(4800));
            assert_eq!(cycle, Some(float_number(1.0)));
            assert_eq!(native, None);
        }
        other => panic!("unexpected {:?}", other),
    }
    let active = "{\"class\":\"DEVICE\",\"path\":\"/dev/pts/1\",\"activated\":\"2017-01-01T00:00:00Z\"}";
    assert!(matches!(
        decode(active).unwrap(),
        Response::Device(DeviceObject::Active { activated: Timestamp { secs: 1483228800, nanos: 0 }, .. })
    ));
    let inactive = "{\"class\":\"DEVICE\",\"path\":\"/dev/pts/1\"}";
    assert_eq!(
        decode(inactive).unwrap(),
        Response::Device(DeviceObject::Inactive { path: Some("/dev/pts/1".to_string()) })
    );
}

#[test]
fn devices_response() {
    let line = "{\"class\":\"DEVICES\",\"devices\":[{\"class\":\"DEVICE\",\"path\":\"/dev/a\"},{\"class\":\"DEVICE\"}],\"remote\":\"gpsd://host\"}";
    assert_eq!(
        decode(line).unwrap(),
        Response::Devices {
            devices: vec![
                DeviceObject::Inactive { path: Some("/dev/a".to_string()) },
                DeviceObject::Inactive { path: None },
            ],
            remote: Some("gpsd://host".to_string()),
        }
    );
}

#[test]
fn parsed_numbers_keep_their_kind() {
    let v = parse_json("[1,-1,1.5,18446744073709551615]").unwrap();
    match v {
        JsonValue::Array(items) => {
            assert_eq!(items.len(), 4);
            assert!(matches!(items[0], JsonValue::Number(JsonNumber::PosInt(1))));
            assert!(matches!(items[1], JsonValue::Number(JsonNumber::NegInt(-1))));
            assert!(matches!(items[2], JsonValue::Number(JsonNumber::Float(b)) if b == 1.5f64.to_bits()));
            assert!(matches!(items[3], JsonValue::Number(JsonNumber::PosInt(u64::MAX))));
        }
        other => panic!("unexpected {:?}", other),
    }
    assert!(parse_json("{\"a\":").is_none());
    match parse_json(" {\"k\":\"v\"} \n").unwrap() {
        JsonValue::Object(m) => {
            assert_eq!(m.len(), 1);
            assert_eq!(m[0].0, "k".to_string());
            assert!(matches!(&m[0].1, JsonValue::Str(s) if s == "v"));
        }
        other => panic!("unexpected {:?}", other),
    }
}

#[test]
fn time_with_offset_is_read_in_utc() {
    let line = "{\"class\":\"TPV\",\"time\":\"2017-01-01T02:00:00.5+02:00\",\"mode\":1}";
    match decode(line).unwrap() {
        Response::Tpv(TpvResponse::NoFix { time, .. }) => {
            assert_eq!(time, Timestamp { secs: 1483228800, nanos: 500000000 });
        }
        other => panic!("unexpected {:?}", other),
    }
}
