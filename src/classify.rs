//! Classifying one line of the daemon's output into a typed response.
use vstd::prelude::*;
use crate::device::{classify_device, device_fields, device_of, read_device_fields};
use crate::json::{
    JsonValue, Slot, find_member, member_missing, flag_slot, json_of, key_is, member, optional, parse_json,
    read_flag, read_real, read_text, read_time, read_uint, real_slot, required, take_optional,
    take_required, text_slot, time_slot, uint_slot,
};
use crate::tpv::{
    classify_tpv, fits_fix2d, fits_fix3d, fits_lat_lon, fits_no_fix, fits_nothing, read_tpv_fields,
    tpv_fields, tpv_of,
};
use crate::types::{
    default_watch, DeviceObject, ParseError, Response, ResponseView, SatelliteObject, SkyResponse, SkyView,
    TpvResponse, WatchObject,
};

verus! {

/// Each item read by `f`, where every item reads; `None` where one does not.
pub open spec fn list_of<T>(items: Seq<JsonValue>, f: spec_fn(JsonValue) -> Option<T>) -> Option<
    Seq<T>,
> {
    if forall|i: int| 0 <= i < items.len() ==> (#[trigger] f(items[i])) is Some {
        Some(items.map_values(|v: JsonValue| f(v)->Some_0))
    } else {
        None
    }
}

/// The elements of the member named `key`, where it is an array.
pub open spec fn array_member(m: Seq<(String, JsonValue)>, key: Seq<char>) -> Option<Seq<JsonValue>> {
    match member(m, key) {
        Some(JsonValue::Array(items)) => Some(items@),
        _ => None,
    }
}

/// A satellite entry: all of `PRN`, `az`, `el`, `ss` and `used` are there
/// with their types; other members are ignored.
pub open spec fn satellite_of(v: JsonValue) -> Option<SatelliteObject> {
    match v {
        JsonValue::Object(m) => {
            let m = m@;
            let prn = uint_slot(member(m, "PRN"@), 65535);
            let az = uint_slot(member(m, "az"@), 4294967295);
            let el = uint_slot(member(m, "el"@), 4294967295);
            let ss = uint_slot(member(m, "ss"@), 4294967295);
            let used = flag_slot(member(m, "used"@));
            if prn is Given && az is Given && el is Given && ss is Given && used is Given {
                Some(
                    SatelliteObject {
                        prn: prn->Given_0 as u16,
                        azimuth: az->Given_0 as u32,
                        elevation: el->Given_0 as u32,
                        signal_strength: ss->Given_0 as u32,
                        used: used->Given_0,
                    },
                )
            } else {
                None
            }
        },
        _ => None,
    }
}

/// A SKY object: its satellite list is there and every entry reads; the other
/// fields may be missing, not of another type.
pub open spec fn sky_of(m: Seq<(String, JsonValue)>) -> Option<SkyView> {
    let device = optional(text_slot(member(m, "device"@)));
    let time = optional(time_slot(member(m, "time"@)));
    let xdop = optional(real_slot(member(m, "xdop"@)));
    let ydop = optional(real_slot(member(m, "ydop"@)));
    let vdop = optional(real_slot(member(m, "vdop"@)));
    let tdop = optional(real_slot(member(m, "tdop"@)));
    let hdop = optional(real_slot(member(m, "hdop"@)));
    let pdop = optional(real_slot(member(m, "pdop"@)));
    let gdop = optional(real_slot(member(m, "gdop"@)));
    let sats = match array_member(m, "satellites"@) {
        Some(items) => list_of(items, |v: JsonValue| satellite_of(v)),
        None => None,
    };
    if device is Some && time is Some && xdop is Some && ydop is Some && vdop is Some && tdop is Some
        && hdop is Some && pdop is Some && gdop is Some && sats is Some {
        Some(
            SkyView {
                device: device->Some_0,
                time: time->Some_0,
                xdop: xdop->Some_0,
                ydop: ydop->Some_0,
                vdop: vdop->Some_0,
                tdop: tdop->Some_0,
                hdop: hdop->Some_0,
                pdop: pdop->Some_0,
                gdop: gdop->Some_0,
                satellites: sats->Some_0,
            },
        )
    } else {
        None
    }
}

/// An element of a list of SKY objects.
pub open spec fn sky_item(v: JsonValue) -> Option<SkyView> {
    match v {
        JsonValue::Object(m) => sky_of(m@),
        _ => None,
    }
}

/// An element of a list of TPV objects: any object.
pub open spec fn tpv_item(v: JsonValue) -> Option<TpvResponse> {
    match v {
        JsonValue::Object(m) => Some(tpv_of(tpv_fields(m@))),
        _ => None,
    }
}

/// An element of a list of DEVICE objects: any object.
pub open spec fn device_item(v: JsonValue) -> Option<DeviceObject> {
    match v {
        JsonValue::Object(m) => Some(device_of(device_fields(m@))),
        _ => None,
    }
}

/// A boolean that takes `default` where it is missing.
pub open spec fn flag_or(s: Slot<bool>, default: bool) -> Option<bool> {
    match s {
        Slot::Absent => Some(default),
        Slot::Given(b) => Some(b),
        Slot::Invalid => None,
    }
}

/// A WATCH object: each missing field takes its default.
pub open spec fn watch_of(m: Seq<(String, JsonValue)>) -> Option<WatchObject> {
    let enable = flag_or(flag_slot(member(m, "enable"@)), true);
    let json = flag_or(flag_slot(member(m, "json"@)), false);
    let nmea = flag_or(flag_slot(member(m, "nmea"@)), false);
    let raw = optional(uint_slot(member(m, "raw"@), 4294967295));
    let scaled = flag_or(flag_slot(member(m, "scaled"@)), false);
    let split24 = flag_or(flag_slot(member(m, "split24"@)), false);
    let pps = flag_or(flag_slot(member(m, "pps"@)), false);
    let device = optional(text_slot(member(m, "device"@)));
    let remote = optional(text_slot(member(m, "remote"@)));
    if enable is Some && json is Some && nmea is Some && raw is Some && scaled is Some && split24 is Some
        && pps is Some && device is Some && remote is Some {
        Some(
            WatchObject {
                enable: enable->Some_0,
                json: json->Some_0,
                nmea: nmea->Some_0,
                raw: match raw->Some_0 {
                    Some(n) => Some(n as u32),
                    None => None,
                },
                scaled: scaled->Some_0,
                split24: split24->Some_0,
                pps: pps->Some_0,
                device: device->Some_0,
                remote: remote->Some_0,
            },
        )
    } else {
        None
    }
}

/// A VERSION object: release, revision and both protocol numbers are there.
pub open spec fn version_of(m: Seq<(String, JsonValue)>) -> Option<ResponseView> {
    let release = required(text_slot(member(m, "release"@)));
    let rev = required(text_slot(member(m, "rev"@)));
    let major = required(uint_slot(member(m, "proto_major"@), 4294967295));
    let minor = required(uint_slot(member(m, "proto_minor"@), 4294967295));
    let remote = optional(text_slot(member(m, "remote"@)));
    if release is Some && rev is Some && major is Some && minor is Some && remote is Some {
        Some(
            ResponseView::Version {
                release: release->Some_0,
                rev: rev->Some_0,
                proto_major: major->Some_0 as u32,
                proto_minor: minor->Some_0 as u32,
                remote: remote->Some_0,
            },
        )
    } else {
        None
    }
}

/// A POLL object: time, active count and both report lists are there.
pub open spec fn poll_of(m: Seq<(String, JsonValue)>) -> Option<ResponseView> {
    let time = required(time_slot(member(m, "time"@)));
    let active = required(uint_slot(member(m, "active"@), 4294967295));
    let tpv = match array_member(m, "tpv"@) {
        Some(items) => list_of(items, |v: JsonValue| tpv_item(v)),
        None => None,
    };
    let sky = match array_member(m, "sky"@) {
        Some(items) => list_of(items, |v: JsonValue| sky_item(v)),
        None => None,
    };
    if time is Some && active is Some && tpv is Some && sky is Some {
        Some(
            ResponseView::Poll {
                time: time->Some_0,
                active: active->Some_0 as u32,
                tpv: tpv->Some_0,
                sky: sky->Some_0,
            },
        )
    } else {
        None
    }
}

/// A DEVICES object: the device list is there and each entry is an object.
pub open spec fn devices_of(m: Seq<(String, JsonValue)>) -> Option<ResponseView> {
    let devices = match array_member(m, "devices"@) {
        Some(items) => list_of(items, |v: JsonValue| device_item(v)),
        None => None,
    };
    let remote = optional(text_slot(member(m, "remote"@)));
    if devices is Some && remote is Some {
        Some(ResponseView::Devices { devices: devices->Some_0, remote: remote->Some_0 })
    } else {
        None
    }
}

/// An ERROR object: its message is there.
pub open spec fn error_of(m: Seq<(String, JsonValue)>) -> Option<ResponseView> {
    match required(text_slot(member(m, "message"@))) {
        Some(message) => Some(ResponseView::Error { message }),
        None => None,
    }
}

/// A shape that may fail, as a classification.
pub open spec fn shaped(r: Option<ResponseView>) -> Result<ResponseView, ParseError> {
    match r {
        Some(x) => Ok(x),
        None => Err(ParseError::ShapeMismatch),
    }
}

/// The response that a JSON document stands for. It must be an object whose
/// `class` member names a known class; TPV and DEVICE objects always
/// classify, the other classes where their members fit.
pub open spec fn classify_spec(v: JsonValue) -> Result<ResponseView, ParseError> {
    match v {
        JsonValue::Object(members) => {
            let m = members@;
            match text_slot(member(m, "class"@)) {
                Slot::Given(c) => if c@ == "TPV"@ {
                    Ok(ResponseView::Tpv(tpv_of(tpv_fields(m))))
                } else if c@ == "SKY"@ {
                    match sky_of(m) {
                        Some(s) => Ok(ResponseView::Sky(s)),
                        None => Err(ParseError::ShapeMismatch),
                    }
                } else if c@ == "POLL"@ {
                    shaped(poll_of(m))
                } else if c@ == "DEVICE"@ {
                    Ok(ResponseView::Device(device_of(device_fields(m))))
                } else if c@ == "DEVICES"@ {
                    shaped(devices_of(m))
                } else if c@ == "WATCH"@ {
                    match watch_of(m) {
                        Some(w) => Ok(ResponseView::Watch(w)),
                        None => Err(ParseError::ShapeMismatch),
                    }
                } else if c@ == "VERSION"@ {
                    shaped(version_of(m))
                } else if c@ == "ERROR"@ {
                    shaped(error_of(m))
                } else {
                    Err(ParseError::UnknownClass)
                },
                _ => Err(ParseError::UnknownClass),
            }
        },
        _ => Err(ParseError::UnknownClass),
    }
}

/// The classification of a line: a syntax error where it holds no JSON
/// document.
pub open spec fn decode_spec(line: Seq<char>) -> Result<ResponseView, ParseError> {
    match json_of(line) {
        Some(v) => classify_spec(v),
        None => Err(ParseError::Syntax),
    }
}

/// A classification result seen through the response's view.
pub open spec fn result_view(r: Result<Response, ParseError>) -> Result<ResponseView, ParseError> {
    match r {
        Ok(x) => Ok(x@),
        Err(e) => Err(e),
    }
}

fn array_at<'a>(m: &'a Vec<(String, JsonValue)>, key: &str) -> (r: Option<&'a Vec<JsonValue>>)
    ensures
        r is None ==> array_member(m@, key@) is None,
        r matches Some(items) ==> array_member(m@, key@) == Some(items@),
{
    match find_member(m, key) {
        Some(i) => match &m[i].1 {
            JsonValue::Array(items) => Some(items),
            _ => None,
        },
        None => None,
    }
}

/// Reads one satellite entry.
pub fn read_satellite(v: &JsonValue) -> (r: Option<SatelliteObject>)
    ensures
        r == satellite_of(*v),
{
    match v {
        JsonValue::Object(m) => {
            let prn = take_required(read_uint(m, "PRN", 65535));
            let az = take_required(read_uint(m, "az", 4294967295));
            let el = take_required(read_uint(m, "el", 4294967295));
            let ss = take_required(read_uint(m, "ss", 4294967295));
            let used = take_required(read_flag(m, "used"));
            match (prn, az, el, ss, used) {
                (Some(prn), Some(az), Some(el), Some(ss), Some(used)) => Some(
                    SatelliteObject {
                        prn: prn as u16,
                        azimuth: az as u32,
                        elevation: el as u32,
                        signal_strength: ss as u32,
                        used,
                    },
                ),
                _ => None,
            }
        },
        _ => None,
    }
}

fn read_satellites(items: &Vec<JsonValue>) -> (r: Option<Vec<SatelliteObject>>)
    ensures
        r is None ==> list_of(items@, |v: JsonValue| satellite_of(v)) is None,
        r matches Some(out) ==> list_of(items@, |v: JsonValue| satellite_of(v)) == Some(out@),
{
    let mut out: Vec<SatelliteObject> = Vec::new();
    let mut i: usize = 0;
    while i < items.len()
        invariant
            i <= items@.len(),
            out@.len() == i,
            forall|j: int| 0 <= j < i ==> satellite_of(items@[j]) == Some(#[trigger] out@[j]),
        decreases items@.len() - i,
    {
        match read_satellite(&items[i]) {
            Some(x) => out.push(x),
            None => {
                assert(!(satellite_of(items@[i as int]) is Some));
                assert(!((|v: JsonValue| satellite_of(v))(items@[i as int]) is Some));
                return None;
            },
        }
        i = i + 1;
    }
    assert forall|j: int| 0 <= j < items@.len() implies (#[trigger] satellite_of(items@[j])) is Some by {
        assert(satellite_of(items@[j]) == Some(out@[j]));
    }
    assert(out@ =~= items@.map_values(|v: JsonValue| satellite_of(v)->Some_0));
    Some(out)
}

/// Reads a SKY object.
pub fn read_sky(m: &Vec<(String, JsonValue)>) -> (r: Option<SkyResponse>)
    ensures
        r is None ==> sky_of(m@) is None,
        r matches Some(s) ==> sky_of(m@) == Some(s@),
{
    let device = take_optional(read_text(m, "device"));
    let time = take_optional(read_time(m, "time"));
    let xdop = take_optional(read_real(m, "xdop"));
    let ydop = take_optional(read_real(m, "ydop"));
    let vdop = take_optional(read_real(m, "vdop"));
    let tdop = take_optional(read_real(m, "tdop"));
    let hdop = take_optional(read_real(m, "hdop"));
    let pdop = take_optional(read_real(m, "pdop"));
    let gdop = take_optional(read_real(m, "gdop"));
    let sats = match array_at(m, "satellites") {
        Some(items) => read_satellites(items),
        None => None,
    };
    match (device, time, xdop, ydop, vdop, tdop, hdop, pdop, gdop, sats) {
        (
            Some(device),
            Some(time),
            Some(xdop),
            Some(ydop),
            Some(vdop),
            Some(tdop),
            Some(hdop),
            Some(pdop),
            Some(gdop),
            Some(satellites),
        ) => Some(
            SkyResponse { device, time, xdop, ydop, vdop, tdop, hdop, pdop, gdop, satellites },
        ),
        _ => None,
    }
}

fn read_sky_item(v: &JsonValue) -> (r: Option<SkyResponse>)
    ensures
        r is None ==> sky_item(*v) is None,
        r matches Some(s) ==> sky_item(*v) == Some(s@),
{
    match v {
        JsonValue::Object(m) => read_sky(m),
        _ => None,
    }
}

fn read_tpv_item(v: &JsonValue) -> (r: Option<TpvResponse>)
    ensures
        r == tpv_item(*v),
{
    match v {
        JsonValue::Object(m) => Some(classify_tpv(read_tpv_fields(m))),
        _ => None,
    }
}

fn read_device_item(v: &JsonValue) -> (r: Option<DeviceObject>)
    ensures
        r == device_item(*v),
{
    match v {
        JsonValue::Object(m) => Some(classify_device(read_device_fields(m))),
        _ => None,
    }
}

fn read_skies(items: &Vec<JsonValue>) -> (r: Option<Vec<SkyResponse>>)
    ensures
        r is None ==> list_of(items@, |v: JsonValue| sky_item(v)) is None,
        r matches Some(out) ==> list_of(items@, |v: JsonValue| sky_item(v)) == Some(out@.map_values(|s: SkyResponse| s@)),
{
    let mut out: Vec<SkyResponse> = Vec::new();
    let mut i: usize = 0;
    while i < items.len()
        invariant
            i <= items@.len(),
            out@.len() == i,
            forall|j: int| 0 <= j < i ==> sky_item(items@[j]) == Some(#[trigger] out@[j]@),
        decreases items@.len() - i,
    {
        match read_sky_item(&items[i]) {
            Some(x) => out.push(x),
            None => {
                assert(!(sky_item(items@[i as int]) is Some));
                assert(!((|v: JsonValue| sky_item(v))(items@[i as int]) is Some));
                return None;
            },
        }
        i = i + 1;
    }
    assert forall|j: int| 0 <= j < items@.len() implies (#[trigger] sky_item(items@[j])) is Some by {
        assert(sky_item(items@[j]) == Some(out@[j]@));
    }
    assert(out@.map_values(|s: SkyResponse| s@) =~= items@.map_values(|v: JsonValue| sky_item(v)->Some_0));
    Some(out)
}

fn read_tpvs(items: &Vec<JsonValue>) -> (r: Option<Vec<TpvResponse>>)
    ensures
        r is None ==> list_of(items@, |v: JsonValue| tpv_item(v)) is None,
        r matches Some(out) ==> list_of(items@, |v: JsonValue| tpv_item(v)) == Some(out@),
{
    let mut out: Vec<TpvResponse> = Vec::new();
    let mut i: usize = 0;
    while i < items.len()
        invariant
            i <= items@.len(),
            out@.len() == i,
            forall|j: int| 0 <= j < i ==> tpv_item(items@[j]) == Some(#[trigger] out@[j]),
        decreases items@.len() - i,
    {
        match read_tpv_item(&items[i]) {
            Some(x) => out.push(x),
            None => {
                assert(!(tpv_item(items@[i as int]) is Some));
                assert(!((|v: JsonValue| tpv_item(v))(items@[i as int]) is Some));
                return None;
            },
        }
        i = i + 1;
    }
    assert forall|j: int| 0 <= j < items@.len() implies (#[trigger] tpv_item(items@[j])) is Some by {
        assert(tpv_item(items@[j]) == Some(out@[j]));
    }
    assert(out@ =~= items@.map_values(|v: JsonValue| tpv_item(v)->Some_0));
    Some(out)
}

fn read_devices(items: &Vec<JsonValue>) -> (r: Option<Vec<DeviceObject>>)
    ensures
        r is None ==> list_of(items@, |v: JsonValue| device_item(v)) is None,
        r matches Some(out) ==> list_of(items@, |v: JsonValue| device_item(v)) == Some(out@),
{
    let mut out: Vec<DeviceObject> = Vec::new();
    let mut i: usize = 0;
    while i < items.len()
        invariant
            i <= items@.len(),
            out@.len() == i,
            forall|j: int| 0 <= j < i ==> device_item(items@[j]) == Some(#[trigger] out@[j]),
        decreases items@.len() - i,
    {
        match read_device_item(&items[i]) {
            Some(x) => out.push(x),
            None => {
                assert(!(device_item(items@[i as int]) is Some));
                assert(!((|v: JsonValue| device_item(v))(items@[i as int]) is Some));
                return None;
            },
        }
        i = i + 1;
    }
    assert forall|j: int| 0 <= j < items@.len() implies (#[trigger] device_item(items@[j])) is Some by {
        assert(device_item(items@[j]) == Some(out@[j]));
    }
    assert(out@ =~= items@.map_values(|v: JsonValue| device_item(v)->Some_0));
    Some(out)
}

fn take_flag_or(s: Slot<bool>, default: bool) -> (r: Option<bool>)
    ensures
        r == flag_or(s, default),
{
    match s {
        Slot::Absent => Some(default),
        Slot::Given(b) => Some(b),
        Slot::Invalid => None,
    }
}

/// Reads a WATCH object, filling in the defaults.
pub fn read_watch(m: &Vec<(String, JsonValue)>) -> (r: Option<WatchObject>)
    ensures
        r == watch_of(m@),
{
    let enable = take_flag_or(read_flag(m, "enable"), true);
    let json = take_flag_or(read_flag(m, "json"), false);
    let nmea = take_flag_or(read_flag(m, "nmea"), false);
    let raw = take_optional(read_uint(m, "raw", 4294967295));
    let scaled = take_flag_or(read_flag(m, "scaled"), false);
    let split24 = take_flag_or(read_flag(m, "split24"), false);
    let pps = take_flag_or(read_flag(m, "pps"), false);
    let device = take_optional(read_text(m, "device"));
    let remote = take_optional(read_text(m, "remote"));
    match (enable, json, nmea, raw, scaled, split24, pps, device, remote) {
        (
            Some(enable),
            Some(json),
            Some(nmea),
            Some(raw),
            Some(scaled),
            Some(split24),
            Some(pps),
            Some(device),
            Some(remote),
        ) => Some(
            WatchObject {
                enable,
                json,
                nmea,
                raw: match raw {
                    Some(n) => Some(n as u32),
                    None => None,
                },
                scaled,
                split24,
                pps,
                device,
                remote,
            },
        ),
        _ => None,
    }
}

fn read_version(m: &Vec<(String, JsonValue)>) -> (r: Option<Response>)
    ensures
        r is None ==> version_of(m@) is None,
        r matches Some(x) ==> version_of(m@) == Some(x@),
{
    let release = take_required(read_text(m, "release"));
    let rev = take_required(read_text(m, "rev"));
    let major = take_required(read_uint(m, "proto_major", 4294967295));
    let minor = take_required(read_uint(m, "proto_minor", 4294967295));
    let remote = take_optional(read_text(m, "remote"));
    match (release, rev, major, minor, remote) {
        (Some(release), Some(rev), Some(major), Some(minor), Some(remote)) => Some(
            Response::Version {
                release,
                rev,
                proto_major: major as u32,
                proto_minor: minor as u32,
                remote,
            },
        ),
        _ => None,
    }
}

fn read_poll(m: &Vec<(String, JsonValue)>) -> (r: Option<Response>)
    ensures
        r is None ==> poll_of(m@) is None,
        r matches Some(x) ==> poll_of(m@) == Some(x@),
{
    let time = take_required(read_time(m, "time"));
    let active = take_required(read_uint(m, "active", 4294967295));
    let tpv = match array_at(m, "tpv") {
        Some(items) => read_tpvs(items),
        None => None,
    };
    let sky = match array_at(m, "sky") {
        Some(items) => read_skies(items),
        None => None,
    };
    match (time, active, tpv, sky) {
        (Some(time), Some(active), Some(tpv), Some(sky)) => Some(
            Response::Poll { time, active: active as u32, tpv, sky },
        ),
        _ => None,
    }
}

fn read_devices_response(m: &Vec<(String, JsonValue)>) -> (r: Option<Response>)
    ensures
        r is None ==> devices_of(m@) is None,
        r matches Some(x) ==> devices_of(m@) == Some(x@),
{
    let devices = match array_at(m, "devices") {
        Some(items) => read_devices(items),
        None => None,
    };
    let remote = take_optional(read_text(m, "remote"));
    match (devices, remote) {
        (Some(devices), Some(remote)) => Some(Response::Devices { devices, remote }),
        _ => None,
    }
}

fn read_error(m: &Vec<(String, JsonValue)>) -> (r: Option<Response>)
    ensures
        r is None ==> error_of(m@) is None,
        r matches Some(x) ==> error_of(m@) == Some(x@),
{
    match take_required(read_text(m, "message")) {
        Some(message) => Some(Response::Error { message }),
        None => None,
    }
}

fn shape(r: Option<Response>) -> (out: Result<Response, ParseError>)
    ensures
        out matches Ok(x) ==> r matches Some(y) && x == y,
        out is Err ==> r is None && out == Err::<Response, ParseError>(ParseError::ShapeMismatch),
{
    match r {
        Some(x) => Ok(x),
        None => Err(ParseError::ShapeMismatch),
    }
}

/// Classifies a JSON document as a response.
pub fn classify(v: &JsonValue) -> (r: Result<Response, ParseError>)
    ensures
        result_view(r) == classify_spec(*v),
{
    match v {
        JsonValue::Object(m) => match read_text(m, "class") {
            Slot::Given(c) => if key_is(&c, "TPV") {
                Ok(Response::Tpv(classify_tpv(read_tpv_fields(m))))
            } else if key_is(&c, "SKY") {
                match read_sky(m) {
                    Some(s) => Ok(Response::Sky(s)),
                    None => Err(ParseError::ShapeMismatch),
                }
            } else if key_is(&c, "POLL") {
                shape(read_poll(m))
            } else if key_is(&c, "DEVICE") {
                Ok(Response::Device(classify_device(read_device_fields(m))))
            } else if key_is(&c, "DEVICES") {
                shape(read_devices_response(m))
            } else if key_is(&c, "WATCH") {
                match read_watch(m) {
                    Some(w) => Ok(Response::Watch(w)),
                    None => Err(ParseError::ShapeMismatch),
                }
            } else if key_is(&c, "VERSION") {
                shape(read_version(m))
            } else if key_is(&c, "ERROR") {
                shape(read_error(m))
            } else {
                Err(ParseError::UnknownClass)
            },
            _ => Err(ParseError::UnknownClass),
        },
        _ => Err(ParseError::UnknownClass),
    }
}

/// Classifies one line of the daemon's output.
pub fn decode(line: &str) -> (r: Result<Response, ParseError>)
    ensures
        result_view(r) == decode_spec(line@),
{
    match parse_json(line) {
        Some(v) => classify(&v),
        None => Err(ParseError::Syntax),
    }
}

/// Decoding is deterministic: any two results that `decode` may give for
/// the same line are equal.
pub proof fn decode_deterministic(
    line: Seq<char>,
    first: Result<Response, ParseError>,
    second: Result<Response, ParseError>,
)
    requires
        result_view(first) == decode_spec(line),
        result_view(second) == decode_spec(line),
    ensures
        result_view(first) == result_view(second),
{
}

/// Classification never produces a raw response: that one comes only from a
/// session in raw mode.
pub proof fn decoding_never_gives_raw(line: Seq<char>)
    ensures
        decode_spec(line) matches Ok(r) ==> !(r is Raw),
{
}

/// Every object tagged `TPV` classifies as a TPV report, never as an error;
/// one that fits none of the five specific shapes is the catch-all.
pub proof fn tpv_always_classifies(members: Vec<(String, JsonValue)>)
    requires
        member(members@, "class"@) matches Some(JsonValue::Str(c)) && c@ == "TPV"@,
    ensures
        classify_spec(JsonValue::Object(members)) == Ok::<ResponseView, ParseError>(
            ResponseView::Tpv(tpv_of(tpv_fields(members@))),
        ),
        ({
            let f = tpv_fields(members@);
            !fits_fix3d(f) && !fits_fix2d(f) && !fits_lat_lon(f) && !fits_no_fix(f) && !fits_nothing(f)
                ==> tpv_of(f) is Dustbin
        }),
{
}

/// The names of the WATCH fields.
pub open spec fn watch_key(k: Seq<char>) -> bool {
    k == "enable"@
        || k == "json"@
        || k == "nmea"@
        || k == "raw"@
        || k == "scaled"@
        || k == "split24"@
        || k == "pps"@
        || k == "device"@
        || k == "remote"@
}

/// A WATCH object without any of the watch fields takes every default:
/// enabled, and everything else off or missing.
pub proof fn missing_watch_fields_take_defaults(m: Seq<(String, JsonValue)>)
    requires
        forall|i: int| 0 <= i < m.len() ==> !watch_key(#[trigger] m[i].0@),
    ensures
        watch_of(m) == Some(default_watch()),
{
    member_missing(m, "enable"@);
    member_missing(m, "json"@);
    member_missing(m, "nmea"@);
    member_missing(m, "raw"@);
    member_missing(m, "scaled"@);
    member_missing(m, "split24"@);
    member_missing(m, "pps"@);
    member_missing(m, "device"@);
    member_missing(m, "remote"@);
}

} // verus!
