//! Sorting a TPV object into its most specific shape.
//!
//! The shapes are tried from strict to permissive. Each strict shape names
//! the fields it needs, the fields it must not see, and admits no member
//! outside the TPV fields; the last shape takes whatever is left.
use vstd::prelude::*;
use crate::json::{
    member_missing, JsonNumber, JsonValue, Slot, Timestamp, is_absent, is_given, is_valid, key_is, lenient, member,
    read_real, read_text, read_time, read_uint, real_slot, take_given, take_lenient, text_slot,
    time_slot, uint_slot,
};
use crate::types::TpvResponse;

verus! {

/// What the members of a TPV object give each of its fields, and whether all
/// of its members are TPV fields.
pub struct TpvFields {
    pub device: Slot<String>,
    pub time: Slot<Timestamp>,
    pub mode: Slot<u64>,
    pub ept: Slot<JsonNumber>,
    pub lat: Slot<JsonNumber>,
    pub epy: Slot<JsonNumber>,
    pub lon: Slot<JsonNumber>,
    pub epx: Slot<JsonNumber>,
    pub alt: Slot<JsonNumber>,
    pub epv: Slot<JsonNumber>,
    pub track: Slot<JsonNumber>,
    pub epd: Slot<JsonNumber>,
    pub speed: Slot<JsonNumber>,
    pub eps: Slot<JsonNumber>,
    pub climb: Slot<JsonNumber>,
    pub epc: Slot<JsonNumber>,
    pub known_only: bool,
}

/// The member names of a TPV object: its fields and its `class` tag.
pub open spec fn tpv_key(k: Seq<char>) -> bool {
    k == "class"@
        || k == "device"@
        || k == "time"@
        || k == "mode"@
        || k == "ept"@
        || k == "lat"@
        || k == "epy"@
        || k == "lon"@
        || k == "epx"@
        || k == "alt"@
        || k == "epv"@
        || k == "track"@
        || k == "epd"@
        || k == "speed"@
        || k == "eps"@
        || k == "climb"@
        || k == "epc"@
}

/// The fields of a TPV object.
pub open spec fn tpv_fields(m: Seq<(String, JsonValue)>) -> TpvFields {
    TpvFields {
        device: text_slot(member(m, "device"@)),
        time: time_slot(member(m, "time"@)),
        mode: uint_slot(member(m, "mode"@), 255),
        ept: real_slot(member(m, "ept"@)),
        lat: real_slot(member(m, "lat"@)),
        epy: real_slot(member(m, "epy"@)),
        lon: real_slot(member(m, "lon"@)),
        epx: real_slot(member(m, "epx"@)),
        alt: real_slot(member(m, "alt"@)),
        epv: real_slot(member(m, "epv"@)),
        track: real_slot(member(m, "track"@)),
        epd: real_slot(member(m, "epd"@)),
        speed: real_slot(member(m, "speed"@)),
        eps: real_slot(member(m, "eps"@)),
        climb: real_slot(member(m, "climb"@)),
        epc: real_slot(member(m, "epc"@)),
        known_only: forall|i: int| 0 <= i < m.len() ==> tpv_key(#[trigger] m[i].0@),
    }
}

/// The members fit a 3D fix: mode, time, position, altitude, speed, climb
/// and the time error are there, and no field has a value of a wrong type.
pub open spec fn fits_fix3d(f: TpvFields) -> bool {
    &&& f.known_only
    &&& !(f.device is Invalid)
    &&& f.time is Given
    &&& f.mode is Given
    &&& f.ept is Given
    &&& f.lat is Given
    &&& !(f.epy is Invalid)
    &&& f.lon is Given
    &&& !(f.epx is Invalid)
    &&& f.alt is Given
    &&& !(f.epv is Invalid)
    &&& !(f.track is Invalid)
    &&& !(f.epd is Invalid)
    &&& f.speed is Given
    &&& !(f.eps is Invalid)
    &&& f.climb is Given
    &&& !(f.epc is Invalid)
}

/// The members fit a 2D fix: no altitude or climb.
pub open spec fn fits_fix2d(f: TpvFields) -> bool {
    &&& f.known_only
    &&& !(f.device is Invalid)
    &&& f.time is Given
    &&& f.mode is Given
    &&& f.ept is Given
    &&& f.lat is Given
    &&& !(f.epy is Invalid)
    &&& f.lon is Given
    &&& !(f.epx is Invalid)
    &&& f.alt is Absent
    &&& f.epv is Absent
    &&& !(f.track is Invalid)
    &&& !(f.epd is Invalid)
    &&& f.speed is Given
    &&& !(f.eps is Invalid)
    &&& f.climb is Absent
    &&& f.epc is Absent
}

/// The members fit a fix with latitude and longitude.
pub open spec fn fits_lat_lon(f: TpvFields) -> bool {
    &&& f.known_only
    &&& !(f.device is Invalid)
    &&& f.time is Given
    &&& f.mode is Given
    &&& f.ept is Given
    &&& f.lat is Given
    &&& !(f.epy is Invalid)
    &&& f.lon is Given
    &&& !(f.epx is Invalid)
    &&& !(f.alt is Invalid)
    &&& !(f.epv is Invalid)
    &&& !(f.track is Invalid)
    &&& !(f.epd is Invalid)
    &&& !(f.speed is Invalid)
    &&& !(f.eps is Invalid)
    &&& !(f.climb is Invalid)
    &&& !(f.epc is Invalid)
}

/// The members fit a report without a fix: mode and time, no position.
pub open spec fn fits_no_fix(f: TpvFields) -> bool {
    &&& f.known_only
    &&& !(f.device is Invalid)
    &&& f.time is Given
    &&& f.mode is Given
    &&& f.ept is Absent
    &&& f.lat is Absent
    &&& f.epy is Absent
    &&& f.lon is Absent
    &&& f.epx is Absent
    &&& f.alt is Absent
    &&& f.epv is Absent
    &&& f.track is Absent
    &&& f.epd is Absent
    &&& f.speed is Absent
    &&& f.eps is Absent
    &&& f.climb is Absent
    &&& f.epc is Absent
}

/// The members hold at most a device, a time and a mode.
pub open spec fn fits_nothing(f: TpvFields) -> bool {
    &&& f.known_only
    &&& !(f.device is Invalid)
    &&& !(f.time is Invalid)
    &&& !(f.mode is Invalid)
    &&& f.ept is Absent
    &&& f.lat is Absent
    &&& f.epy is Absent
    &&& f.lon is Absent
    &&& f.epx is Absent
    &&& f.alt is Absent
    &&& f.epv is Absent
    &&& f.track is Absent
    &&& f.epd is Absent
    &&& f.speed is Absent
    &&& f.eps is Absent
    &&& f.climb is Absent
    &&& f.epc is Absent
}

/// The shape that a TPV object's fields give: the first of 3D fix, 2D fix,
/// latitude and longitude, no fix and nothing that fits, else the catch-all.
pub open spec fn tpv_of(f: TpvFields) -> TpvResponse {
    if fits_fix3d(f) {
        TpvResponse::Fix3D {
            device: lenient(f.device),
            time: f.time->Given_0,
            mode: (f.mode->Given_0 as u8),
            time_err: f.ept->Given_0,
            lat: f.lat->Given_0,
            lat_err: lenient(f.epy),
            lon: f.lon->Given_0,
            lon_err: lenient(f.epx),
            alt: f.alt->Given_0,
            alt_err: lenient(f.epv),
            track: lenient(f.track),
            track_err: lenient(f.epd),
            speed: f.speed->Given_0,
            speed_err: lenient(f.eps),
            climb: f.climb->Given_0,
            climb_err: lenient(f.epc),
        }
    } else if fits_fix2d(f) {
        TpvResponse::Fix2D {
            device: lenient(f.device),
            time: f.time->Given_0,
            mode: (f.mode->Given_0 as u8),
            time_err: f.ept->Given_0,
            lat: f.lat->Given_0,
            lat_err: lenient(f.epy),
            lon: f.lon->Given_0,
            lon_err: lenient(f.epx),
            track: lenient(f.track),
            track_err: lenient(f.epd),
            speed: f.speed->Given_0,
            speed_err: lenient(f.eps),
        }
    } else if fits_lat_lon(f) {
        TpvResponse::LatLonOnly {
            device: lenient(f.device),
            time: f.time->Given_0,
            mode: (f.mode->Given_0 as u8),
            time_err: f.ept->Given_0,
            lat: f.lat->Given_0,
            lat_err: lenient(f.epy),
            lon: f.lon->Given_0,
            lon_err: lenient(f.epx),
            alt: lenient(f.alt),
            alt_err: lenient(f.epv),
            track: lenient(f.track),
            track_err: lenient(f.epd),
            speed: lenient(f.speed),
            speed_err: lenient(f.eps),
            climb: lenient(f.climb),
            climb_err: lenient(f.epc),
        }
    } else if fits_no_fix(f) {
        TpvResponse::NoFix {
            device: lenient(f.device),
            time: f.time->Given_0,
            mode: (f.mode->Given_0 as u8),
        }
    } else if fits_nothing(f) {
        TpvResponse::Nothing {
            device: lenient(f.device),
            time: lenient(f.time),
            mode: (match lenient(f.mode) { Some(m) => Some(m as u8), None => None }),
        }
    } else {
        TpvResponse::Dustbin {
            device: lenient(f.device),
            time: lenient(f.time),
            mode: (match lenient(f.mode) { Some(m) => Some(m as u8), None => None }),
            time_err: lenient(f.ept),
            lat: lenient(f.lat),
            lat_err: lenient(f.epy),
            lon: lenient(f.lon),
            lon_err: lenient(f.epx),
            alt: lenient(f.alt),
            alt_err: lenient(f.epv),
            track: lenient(f.track),
            track_err: lenient(f.epd),
            speed: lenient(f.speed),
            speed_err: lenient(f.eps),
            climb: lenient(f.climb),
            climb_err: lenient(f.epc),
        }
    }
}

fn is_tpv_key(k: &String) -> (r: bool)
    ensures
        r == tpv_key(k@),
{
    key_is(k, "class")
        || key_is(k, "device")
        || key_is(k, "time")
        || key_is(k, "mode")
        || key_is(k, "ept")
        || key_is(k, "lat")
        || key_is(k, "epy")
        || key_is(k, "lon")
        || key_is(k, "epx")
        || key_is(k, "alt")
        || key_is(k, "epv")
        || key_is(k, "track")
        || key_is(k, "epd")
        || key_is(k, "speed")
        || key_is(k, "eps")
        || key_is(k, "climb")
        || key_is(k, "epc")
}

fn only_tpv_keys(m: &Vec<(String, JsonValue)>) -> (r: bool)
    ensures
        r == (forall|i: int| 0 <= i < m@.len() ==> tpv_key(#[trigger] m@[i].0@)),
{
    let mut i: usize = 0;
    while i < m.len()
        invariant
            i <= m@.len(),
            forall|j: int| 0 <= j < i ==> tpv_key(#[trigger] m@[j].0@),
        decreases m@.len() - i,
    {
        if !is_tpv_key(&m[i].0) {
            return false;
        }
        i = i + 1;
    }
    true
}

/// Reads the fields of a TPV object.
pub fn read_tpv_fields(m: &Vec<(String, JsonValue)>) -> (r: TpvFields)
    ensures
        r == tpv_fields(m@),
{
    TpvFields {
        device: read_text(m, "device"),
        time: read_time(m, "time"),
        mode: read_uint(m, "mode", 255),
        ept: read_real(m, "ept"),
        lat: read_real(m, "lat"),
        epy: read_real(m, "epy"),
        lon: read_real(m, "lon"),
        epx: read_real(m, "epx"),
        alt: read_real(m, "alt"),
        epv: read_real(m, "epv"),
        track: read_real(m, "track"),
        epd: read_real(m, "epd"),
        speed: read_real(m, "speed"),
        eps: read_real(m, "eps"),
        climb: read_real(m, "climb"),
        epc: read_real(m, "epc"),
        known_only: only_tpv_keys(m),
    }
}

fn check_fix3d(f: &TpvFields) -> (r: bool)
    ensures
        r == fits_fix3d(*f),
{
    f.known_only
        && is_valid(&f.device)
        && is_given(&f.time)
        && is_given(&f.mode)
        && is_given(&f.ept)
        && is_given(&f.lat)
        && is_valid(&f.epy)
        && is_given(&f.lon)
        && is_valid(&f.epx)
        && is_given(&f.alt)
        && is_valid(&f.epv)
        && is_valid(&f.track)
        && is_valid(&f.epd)
        && is_given(&f.speed)
        && is_valid(&f.eps)
        && is_given(&f.climb)
        && is_valid(&f.epc)
}

fn check_fix2d(f: &TpvFields) -> (r: bool)
    ensures
        r == fits_fix2d(*f),
{
    f.known_only
        && is_valid(&f.device)
        && is_given(&f.time)
        && is_given(&f.mode)
        && is_given(&f.ept)
        && is_given(&f.lat)
        && is_valid(&f.epy)
        && is_given(&f.lon)
        && is_valid(&f.epx)
        && is_absent(&f.alt)
        && is_absent(&f.epv)
        && is_valid(&f.track)
        && is_valid(&f.epd)
        && is_given(&f.speed)
        && is_valid(&f.eps)
        && is_absent(&f.climb)
        && is_absent(&f.epc)
}

fn check_lat_lon(f: &TpvFields) -> (r: bool)
    ensures
        r == fits_lat_lon(*f),
{
    f.known_only
        && is_valid(&f.device)
        && is_given(&f.time)
        && is_given(&f.mode)
        && is_given(&f.ept)
        && is_given(&f.lat)
        && is_valid(&f.epy)
        && is_given(&f.lon)
        && is_valid(&f.epx)
        && is_valid(&f.alt)
        && is_valid(&f.epv)
        && is_valid(&f.track)
        && is_valid(&f.epd)
        && is_valid(&f.speed)
        && is_valid(&f.eps)
        && is_valid(&f.climb)
        && is_valid(&f.epc)
}

fn check_no_fix(f: &TpvFields) -> (r: bool)
    ensures
        r == fits_no_fix(*f),
{
    f.known_only
        && is_valid(&f.device)
        && is_given(&f.time)
        && is_given(&f.mode)
        && is_absent(&f.ept)
        && is_absent(&f.lat)
        && is_absent(&f.epy)
        && is_absent(&f.lon)
        && is_absent(&f.epx)
        && is_absent(&f.alt)
        && is_absent(&f.epv)
        && is_absent(&f.track)
        && is_absent(&f.epd)
        && is_absent(&f.speed)
        && is_absent(&f.eps)
        && is_absent(&f.climb)
        && is_absent(&f.epc)
}

fn check_nothing(f: &TpvFields) -> (r: bool)
    ensures
        r == fits_nothing(*f),
{
    f.known_only
        && is_valid(&f.device)
        && is_valid(&f.time)
        && is_valid(&f.mode)
        && is_absent(&f.ept)
        && is_absent(&f.lat)
        && is_absent(&f.epy)
        && is_absent(&f.lon)
        && is_absent(&f.epx)
        && is_absent(&f.alt)
        && is_absent(&f.epv)
        && is_absent(&f.track)
        && is_absent(&f.epd)
        && is_absent(&f.speed)
        && is_absent(&f.eps)
        && is_absent(&f.climb)
        && is_absent(&f.epc)
}

/// Sorts a TPV object's fields into the shape that `tpv_of` gives.
pub fn classify_tpv(f: TpvFields) -> (r: TpvResponse)
    ensures
        r == tpv_of(f),
{
    if check_fix3d(&f) {
        TpvResponse::Fix3D {
            device: take_lenient(f.device),
            time: take_given(f.time),
            mode: take_given(f.mode) as u8,
            time_err: take_given(f.ept),
            lat: take_given(f.lat),
            lat_err: take_lenient(f.epy),
            lon: take_given(f.lon),
            lon_err: take_lenient(f.epx),
            alt: take_given(f.alt),
            alt_err: take_lenient(f.epv),
            track: take_lenient(f.track),
            track_err: take_lenient(f.epd),
            speed: take_given(f.speed),
            speed_err: take_lenient(f.eps),
            climb: take_given(f.climb),
            climb_err: take_lenient(f.epc),
        }
    } else if check_fix2d(&f) {
        TpvResponse::Fix2D {
            device: take_lenient(f.device),
            time: take_given(f.time),
            mode: take_given(f.mode) as u8,
            time_err: take_given(f.ept),
            lat: take_given(f.lat),
            lat_err: take_lenient(f.epy),
            lon: take_given(f.lon),
            lon_err: take_lenient(f.epx),
            track: take_lenient(f.track),
            track_err: take_lenient(f.epd),
            speed: take_given(f.speed),
            speed_err: take_lenient(f.eps),
        }
    } else if check_lat_lon(&f) {
        TpvResponse::LatLonOnly {
            device: take_lenient(f.device),
            time: take_given(f.time),
            mode: take_given(f.mode) as u8,
            time_err: take_given(f.ept),
            lat: take_given(f.lat),
            lat_err: take_lenient(f.epy),
            lon: take_given(f.lon),
            lon_err: take_lenient(f.epx),
            alt: take_lenient(f.alt),
            alt_err: take_lenient(f.epv),
            track: take_lenient(f.track),
            track_err: take_lenient(f.epd),
            speed: take_lenient(f.speed),
            speed_err: take_lenient(f.eps),
            climb: take_lenient(f.climb),
            climb_err: take_lenient(f.epc),
        }
    } else if check_no_fix(&f) {
        TpvResponse::NoFix {
            device: take_lenient(f.device),
            time: take_given(f.time),
            mode: take_given(f.mode) as u8,
        }
    } else if check_nothing(&f) {
        TpvResponse::Nothing {
            device: take_lenient(f.device),
            time: take_lenient(f.time),
            mode: match take_lenient(f.mode) {
                Some(m) => Some(m as u8),
                None => None,
            },
        }
    } else {
        TpvResponse::Dustbin {
            device: take_lenient(f.device),
            time: take_lenient(f.time),
            mode: match take_lenient(f.mode) {
                Some(m) => Some(m as u8),
                None => None,
            },
            time_err: take_lenient(f.ept),
            lat: take_lenient(f.lat),
            lat_err: take_lenient(f.epy),
            lon: take_lenient(f.lon),
            lon_err: take_lenient(f.epx),
            alt: take_lenient(f.alt),
            alt_err: take_lenient(f.epv),
            track: take_lenient(f.track),
            track_err: take_lenient(f.epd),
            speed: take_lenient(f.speed),
            speed_err: take_lenient(f.eps),
            climb: take_lenient(f.climb),
            climb_err: take_lenient(f.epc),
        }
    }
}

/// A TPV object in mode 3 that carries latitude, longitude, altitude, speed,
/// climb and the time error as numbers, a valid time, no foreign members and
/// no field of a wrong type, is a 3D fix.
pub proof fn complete_report_is_fix3d(m: Seq<(String, JsonValue)>)
    requires
        forall|i: int| 0 <= i < m.len() ==> tpv_key(#[trigger] m[i].0@),
        member(m, "mode"@) == Some(JsonValue::Number(JsonNumber::PosInt(3))),
        time_slot(member(m, "time"@)) is Given,
        real_slot(member(m, "lat"@)) is Given,
        real_slot(member(m, "lon"@)) is Given,
        real_slot(member(m, "alt"@)) is Given,
        real_slot(member(m, "speed"@)) is Given,
        real_slot(member(m, "climb"@)) is Given,
        real_slot(member(m, "ept"@)) is Given,
        !(text_slot(member(m, "device"@)) is Invalid),
        !(real_slot(member(m, "epy"@)) is Invalid),
        !(real_slot(member(m, "epx"@)) is Invalid),
        !(real_slot(member(m, "epv"@)) is Invalid),
        !(real_slot(member(m, "track"@)) is Invalid),
        !(real_slot(member(m, "epd"@)) is Invalid),
        !(real_slot(member(m, "eps"@)) is Invalid),
        !(real_slot(member(m, "epc"@)) is Invalid),
    ensures
        tpv_of(tpv_fields(m)) matches TpvResponse::Fix3D { mode, .. } && mode == 3,
{
}

/// A TPV object in mode 1 with a valid time and no position, and with no
/// member but `class`, `device`, `time` and `mode`, is a report without a fix.
pub proof fn positionless_report_is_no_fix(m: Seq<(String, JsonValue)>)
    requires
        forall|i: int|
            0 <= i < m.len() ==> {
                let k = #[trigger] m[i].0@;
                k == "class"@ || k == "device"@ || k == "time"@ || k == "mode"@
            },
        member(m, "mode"@) == Some(JsonValue::Number(JsonNumber::PosInt(1))),
        time_slot(member(m, "time"@)) is Given,
        !(text_slot(member(m, "device"@)) is Invalid),
    ensures
        tpv_of(tpv_fields(m)) matches TpvResponse::NoFix { mode, .. } && mode == 1,
{
    reveal_strlit("class");
    reveal_strlit("device");
    reveal_strlit("time");
    reveal_strlit("mode");
    reveal_strlit("ept");
    reveal_strlit("lat");
    reveal_strlit("epy");
    reveal_strlit("lon");
    reveal_strlit("epx");
    reveal_strlit("alt");
    reveal_strlit("epv");
    reveal_strlit("track");
    reveal_strlit("epd");
    reveal_strlit("speed");
    reveal_strlit("eps");
    reveal_strlit("climb");
    reveal_strlit("epc");
    assert("class"@.len() != "ept"@.len());
    assert("class"@.len() != "lat"@.len());
    assert("class"@.len() != "epy"@.len());
    assert("class"@.len() != "lon"@.len());
    assert("class"@.len() != "epx"@.len());
    assert("class"@.len() != "alt"@.len());
    assert("class"@.len() != "epv"@.len());
    assert("class"@[0] != "track"@[0]);
    assert("class"@.len() != "epd"@.len());
    assert("class"@[0] != "speed"@[0]);
    assert("class"@.len() != "eps"@.len());
    assert("class"@[2] != "climb"@[2]);
    assert("class"@.len() != "epc"@.len());
    assert("device"@.len() != "ept"@.len());
    assert("device"@.len() != "lat"@.len());
    assert("device"@.len() != "epy"@.len());
    assert("device"@.len() != "lon"@.len());
    assert("device"@.len() != "epx"@.len());
    assert("device"@.len() != "alt"@.len());
    assert("device"@.len() != "epv"@.len());
    assert("device"@.len() != "track"@.len());
    assert("device"@.len() != "epd"@.len());
    assert("device"@.len() != "speed"@.len());
    assert("device"@.len() != "eps"@.len());
    assert("device"@.len() != "climb"@.len());
    assert("device"@.len() != "epc"@.len());
    assert("time"@.len() != "ept"@.len());
    assert("time"@.len() != "lat"@.len());
    assert("time"@.len() != "epy"@.len());
    assert("time"@.len() != "lon"@.len());
    assert("time"@.len() != "epx"@.len());
    assert("time"@.len() != "alt"@.len());
    assert("time"@.len() != "epv"@.len());
    assert("time"@.len() != "track"@.len());
    assert("time"@.len() != "epd"@.len());
    assert("time"@.len() != "speed"@.len());
    assert("time"@.len() != "eps"@.len());
    assert("time"@.len() != "climb"@.len());
    assert("time"@.len() != "epc"@.len());
    assert("mode"@.len() != "ept"@.len());
    assert("mode"@.len() != "lat"@.len());
    assert("mode"@.len() != "epy"@.len());
    assert("mode"@.len() != "lon"@.len());
    assert("mode"@.len() != "epx"@.len());
    assert("mode"@.len() != "alt"@.len());
    assert("mode"@.len() != "epv"@.len());
    assert("mode"@.len() != "track"@.len());
    assert("mode"@.len() != "epd"@.len());
    assert("mode"@.len() != "speed"@.len());
    assert("mode"@.len() != "eps"@.len());
    assert("mode"@.len() != "climb"@.len());
    assert("mode"@.len() != "epc"@.len());
    member_missing(m, "ept"@);
    member_missing(m, "lat"@);
    member_missing(m, "epy"@);
    member_missing(m, "lon"@);
    member_missing(m, "epx"@);
    member_missing(m, "alt"@);
    member_missing(m, "epv"@);
    member_missing(m, "track"@);
    member_missing(m, "epd"@);
    member_missing(m, "speed"@);
    member_missing(m, "eps"@);
    member_missing(m, "climb"@);
    member_missing(m, "epc"@);
}

} // verus!
