//! The responses that gpsd sends, as typed values.
use vstd::prelude::*;
use crate::json::{JsonNumber, Timestamp};

verus! {

/// A time-position-velocity (TPV) report, sorted into the most specific shape
/// that the members it carries allow.
///
/// Real-valued fields keep the number as the daemon sent it. Fields ending in
/// `_err` are error estimates (95% confidence) in the unit of their field; on
/// the wire they are `ept`, `epy`, `epx`, `epv`, `epd`, `eps` and `epc`.
#[derive(Debug, PartialEq)]
pub enum TpvResponse {
    /// 3D fix, with speed and climb.
    Fix3D {
        device: Option<String>,
        time: Timestamp,
        mode: u8,
        time_err: JsonNumber,
        lat: JsonNumber,
        lat_err: Option<JsonNumber>,
        lon: JsonNumber,
        lon_err: Option<JsonNumber>,
        alt: JsonNumber,
        alt_err: Option<JsonNumber>,
        track: Option<JsonNumber>,
        track_err: Option<JsonNumber>,
        speed: JsonNumber,
        speed_err: Option<JsonNumber>,
        climb: JsonNumber,
        climb_err: Option<JsonNumber>,
    },
    /// 2D fix, with speed.
    Fix2D {
        device: Option<String>,
        time: Timestamp,
        mode: u8,
        time_err: JsonNumber,
        lat: JsonNumber,
        lat_err: Option<JsonNumber>,
        lon: JsonNumber,
        lon_err: Option<JsonNumber>,
        track: Option<JsonNumber>,
        track_err: Option<JsonNumber>,
        speed: JsonNumber,
        speed_err: Option<JsonNumber>,
    },
    /// A fix with latitude and longitude and any of the other fields.
    LatLonOnly {
        device: Option<String>,
        time: Timestamp,
        mode: u8,
        time_err: JsonNumber,
        lat: JsonNumber,
        lat_err: Option<JsonNumber>,
        lon: JsonNumber,
        lon_err: Option<JsonNumber>,
        alt: Option<JsonNumber>,
        alt_err: Option<JsonNumber>,
        track: Option<JsonNumber>,
        track_err: Option<JsonNumber>,
        speed: Option<JsonNumber>,
        speed_err: Option<JsonNumber>,
        climb: Option<JsonNumber>,
        climb_err: Option<JsonNumber>,
    },
    /// No fix.
    NoFix { device: Option<String>, time: Timestamp, mode: u8 },
    /// Possibly no useful data at all.
    Nothing { device: Option<String>, time: Option<Timestamp>, mode: Option<u8> },
    /// Whatever matched none of the shapes above: each field that is there
    /// with the right type.
    Dustbin {
        device: Option<String>,
        time: Option<Timestamp>,
        mode: Option<u8>,
        time_err: Option<JsonNumber>,
        lat: Option<JsonNumber>,
        lat_err: Option<JsonNumber>,
        lon: Option<JsonNumber>,
        lon_err: Option<JsonNumber>,
        alt: Option<JsonNumber>,
        alt_err: Option<JsonNumber>,
        track: Option<JsonNumber>,
        track_err: Option<JsonNumber>,
        speed: Option<JsonNumber>,
        speed_err: Option<JsonNumber>,
        climb: Option<JsonNumber>,
        climb_err: Option<JsonNumber>,
    },
}

/// A single satellite.
#[derive(Debug, PartialEq)]
pub struct SatelliteObject {
    /// PRN ID of the satellite (`PRN` on the wire).
    pub prn: u16,
    /// Azimuth, degrees from true north (`az`).
    pub azimuth: u32,
    /// Elevation in degrees (`el`).
    pub elevation: u32,
    /// Signal strength in dB (`ss`).
    pub signal_strength: u32,
    /// Used in the current solution?
    pub used: bool,
}

/// A sky view report (SKY) of satellite positions and dilutions of precision.
#[derive(Debug, PartialEq)]
pub struct SkyResponse {
    pub device: Option<String>,
    pub time: Option<Timestamp>,
    pub xdop: Option<JsonNumber>,
    pub ydop: Option<JsonNumber>,
    pub vdop: Option<JsonNumber>,
    pub tdop: Option<JsonNumber>,
    pub hdop: Option<JsonNumber>,
    pub pdop: Option<JsonNumber>,
    pub gdop: Option<JsonNumber>,
    pub satellites: Vec<SatelliteObject>,
}

/// A sky view report with its satellites as a sequence.
pub struct SkyView {
    pub device: Option<String>,
    pub time: Option<Timestamp>,
    pub xdop: Option<JsonNumber>,
    pub ydop: Option<JsonNumber>,
    pub vdop: Option<JsonNumber>,
    pub tdop: Option<JsonNumber>,
    pub hdop: Option<JsonNumber>,
    pub pdop: Option<JsonNumber>,
    pub gdop: Option<JsonNumber>,
    pub satellites: Seq<SatelliteObject>,
}

impl View for SkyResponse {
    type V = SkyView;

    open spec fn view(&self) -> SkyView {
        SkyView {
            device: self.device,
            time: self.time,
            xdop: self.xdop,
            ydop: self.ydop,
            vdop: self.vdop,
            tdop: self.tdop,
            hdop: self.hdop,
            pdop: self.pdop,
            gdop: self.gdop,
            satellites: self.satellites@,
        }
    }
}

/// Information about a device known to gpsd.
///
/// `flags` is a bit set of the packet types seen: 0x01 GPS, 0x02 RTCM2,
/// 0x04 RTCM3, 0x08 AIS.
#[derive(Debug, PartialEq)]
pub enum DeviceObject {
    /// Active, and packets have been seen from it.
    ActiveSeenPackets {
        path: Option<String>,
        activated: Timestamp,
        flags: u8,
        driver: String,
        subtype: Option<String>,
        bps: Option<u32>,
        parity: Option<String>,
        stopbits: Option<String>,
        native: Option<u8>,
        cycle: Option<JsonNumber>,
        minicycle: Option<JsonNumber>,
    },
    /// Active, with no packets seen yet.
    Active {
        path: Option<String>,
        activated: Timestamp,
        subtype: Option<String>,
        bps: Option<u32>,
        parity: Option<String>,
        stopbits: Option<String>,
        native: Option<u8>,
        cycle: Option<JsonNumber>,
        minicycle: Option<JsonNumber>,
    },
    /// Inactive.
    Inactive { path: Option<String> },
}

/// Watcher mode parameters.
#[derive(Debug, PartialEq)]
pub struct WatchObject {
    /// Watcher mode on or off; true where not given.
    pub enable: bool,
    /// JSON reports; false where not given.
    pub json: bool,
    /// Binary packets dumped as pseudo-NMEA; false where not given.
    pub nmea: bool,
    /// Raw level: 1 for unprocessed sentences (binary hex-dumped), 2 for
    /// binary data verbatim.
    pub raw: Option<u32>,
    /// Scaling divisors applied before dumping; false where not given.
    pub scaled: bool,
    /// AIS type 24 parts aggregated; false where not given.
    pub split24: bool,
    /// TOFF and PPS messages; false where not given.
    pub pps: bool,
    /// Only this device is watched.
    pub device: Option<String>,
    /// URL of the remote daemon reporting the watch set.
    pub remote: Option<String>,
}

/// The watch parameters with every field at its default.
pub open spec fn default_watch() -> WatchObject {
    WatchObject {
        enable: true,
        json: false,
        nmea: false,
        raw: None,
        scaled: false,
        split24: false,
        pps: false,
        device: None,
        remote: None,
    }
}

impl Default for WatchObject {
    fn default() -> (r: Self)
        ensures
            r == default_watch(),
    {
        WatchObject {
            enable: true,
            json: false,
            nmea: false,
            raw: None,
            scaled: false,
            split24: false,
            pps: false,
            device: None,
            remote: None,
        }
    }
}

/// A response from gpsd, sorted by its `class` member.
#[derive(Debug, PartialEq)]
pub enum Response {
    Tpv(TpvResponse),
    Sky(SkyResponse),
    /// The last-seen fixes of all active devices.
    Poll { time: Timestamp, active: u32, tpv: Vec<TpvResponse>, sky: Vec<SkyResponse> },
    Device(DeviceObject),
    Devices { devices: Vec<DeviceObject>, remote: Option<String> },
    Watch(WatchObject),
    Version { release: String, rev: String, proto_major: u32, proto_minor: u32, remote: Option<String> },
    Error { message: String },
    /// A line passed through verbatim in raw mode; never made by decoding.
    Raw(String),
}

/// A response with its lists as sequences.
pub enum ResponseView {
    Tpv(TpvResponse),
    Sky(SkyView),
    Poll { time: Timestamp, active: u32, tpv: Seq<TpvResponse>, sky: Seq<SkyView> },
    Device(DeviceObject),
    Devices { devices: Seq<DeviceObject>, remote: Option<String> },
    Watch(WatchObject),
    Version { release: String, rev: String, proto_major: u32, proto_minor: u32, remote: Option<String> },
    Error { message: String },
    Raw(String),
}

impl View for Response {
    type V = ResponseView;

    open spec fn view(&self) -> ResponseView {
        match self {
            Response::Tpv(t) => ResponseView::Tpv(*t),
            Response::Sky(s) => ResponseView::Sky(s@),
            Response::Poll { time, active, tpv, sky } => ResponseView::Poll {
                time: *time,
                active: *active,
                tpv: tpv@,
                sky: sky@.map_values(|s: SkyResponse| s@),
            },
            Response::Device(d) => ResponseView::Device(*d),
            Response::Devices { devices, remote } => ResponseView::Devices {
                devices: devices@,
                remote: *remote,
            },
            Response::Watch(w) => ResponseView::Watch(*w),
            Response::Version { release, rev, proto_major, proto_minor, remote } => ResponseView::Version {
                release: *release,
                rev: *rev,
                proto_major: *proto_major,
                proto_minor: *proto_minor,
                remote: *remote,
            },
            Response::Error { message } => ResponseView::Error { message: *message },
            Response::Raw(s) => ResponseView::Raw(*s),
        }
    }
}

/// Why a line was not classified.
#[derive(Clone, Copy, Debug, PartialEq, Eq, Structural)]
pub enum ParseError {
    /// The line is not one JSON document.
    Syntax,
    /// The document is not an object with a `class` member naming a known
    /// response.
    UnknownClass,
    /// The members do not fit the shape that the class asks for.
    ShapeMismatch,
}

} // verus!
