//! Sorting a DEVICE object into its most specific shape.
use vstd::prelude::*;
use crate::json::{
    JsonNumber, JsonValue, Slot, Timestamp, is_given, is_valid, lenient, member, read_real, read_text,
    read_time, read_uint, real_slot, take_given, take_lenient, text_slot, time_slot, uint_slot,
};
use crate::types::DeviceObject;

verus! {

/// What the members of a DEVICE object give each of its fields.
pub struct DeviceFields {
    pub path: Slot<String>,
    pub activated: Slot<Timestamp>,
    pub flags: Slot<u64>,
    pub driver: Slot<String>,
    pub subtype: Slot<String>,
    pub bps: Slot<u64>,
    pub parity: Slot<String>,
    pub stopbits: Slot<String>,
    pub native: Slot<u64>,
    pub cycle: Slot<JsonNumber>,
    pub minicycle: Slot<JsonNumber>,
}

/// The fields of a DEVICE object; members of other names are ignored.
pub open spec fn device_fields(m: Seq<(String, JsonValue)>) -> DeviceFields {
    DeviceFields {
        path: text_slot(member(m, "path"@)),
        activated: time_slot(member(m, "activated"@)),
        flags: uint_slot(member(m, "flags"@), 255),
        driver: text_slot(member(m, "driver"@)),
        subtype: text_slot(member(m, "subtype"@)),
        bps: uint_slot(member(m, "bps"@), 4294967295),
        parity: text_slot(member(m, "parity"@)),
        stopbits: text_slot(member(m, "stopbits"@)),
        native: uint_slot(member(m, "native"@), 255),
        cycle: real_slot(member(m, "cycle"@)),
        minicycle: real_slot(member(m, "minicycle"@)),
    }
}

/// The secondary fields of an active device have no value of a wrong type.
pub open spec fn secondary_valid(f: DeviceFields) -> bool {
    &&& !(f.path is Invalid)
    &&& !(f.subtype is Invalid)
    &&& !(f.bps is Invalid)
    &&& !(f.parity is Invalid)
    &&& !(f.stopbits is Invalid)
    &&& !(f.native is Invalid)
    &&& !(f.cycle is Invalid)
    &&& !(f.minicycle is Invalid)
}

/// The members fit an active device whose packets have been seen.
pub open spec fn fits_seen_packets(f: DeviceFields) -> bool {
    &&& f.activated is Given
    &&& f.flags is Given
    &&& f.driver is Given
    &&& secondary_valid(f)
}

/// The members fit an active device.
pub open spec fn fits_active(f: DeviceFields) -> bool {
    &&& f.activated is Given
    &&& secondary_valid(f)
}

pub open spec fn narrow(s: Option<u64>) -> Option<u8> {
    match s {
        Some(n) => Some(n as u8),
        None => None,
    }
}

pub open spec fn narrow32(s: Option<u64>) -> Option<u32> {
    match s {
        Some(n) => Some(n as u32),
        None => None,
    }
}

/// The shape that a DEVICE object's fields give: active with packets seen,
/// else active, else inactive.
pub open spec fn device_of(f: DeviceFields) -> DeviceObject {
    if fits_seen_packets(f) {
        DeviceObject::ActiveSeenPackets {
            path: lenient(f.path),
            activated: f.activated->Given_0,
            flags: f.flags->Given_0 as u8,
            driver: f.driver->Given_0,
            subtype: lenient(f.subtype),
            bps: narrow32(lenient(f.bps)),
            parity: lenient(f.parity),
            stopbits: lenient(f.stopbits),
            native: narrow(lenient(f.native)),
            cycle: lenient(f.cycle),
            minicycle: lenient(f.minicycle),
        }
    } else if fits_active(f) {
        DeviceObject::Active {
            path: lenient(f.path),
            activated: f.activated->Given_0,
            subtype: lenient(f.subtype),
            bps: narrow32(lenient(f.bps)),
            parity: lenient(f.parity),
            stopbits: lenient(f.stopbits),
            native: narrow(lenient(f.native)),
            cycle: lenient(f.cycle),
            minicycle: lenient(f.minicycle),
        }
    } else {
        DeviceObject::Inactive { path: lenient(f.path) }
    }
}

/// Reads the fields of a DEVICE object.
pub fn read_device_fields(m: &Vec<(String, JsonValue)>) -> (r: DeviceFields)
    ensures
        r == device_fields(m@),
{
    DeviceFields {
        path: read_text(m, "path"),
        activated: read_time(m, "activated"),
        flags: read_uint(m, "flags", 255),
        driver: read_text(m, "driver"),
        subtype: read_text(m, "subtype"),
        bps: read_uint(m, "bps", 4294967295),
        parity: read_text(m, "parity"),
        stopbits: read_text(m, "stopbits"),
        native: read_uint(m, "native", 255),
        cycle: read_real(m, "cycle"),
        minicycle: read_real(m, "minicycle"),
    }
}

fn check_secondary(f: &DeviceFields) -> (r: bool)
    ensures
        r == secondary_valid(*f),
{
    is_valid(&f.path) && is_valid(&f.subtype) && is_valid(&f.bps) && is_valid(&f.parity)
        && is_valid(&f.stopbits) && is_valid(&f.native) && is_valid(&f.cycle) && is_valid(
        &f.minicycle,
    )
}

fn take_narrow(s: Slot<u64>) -> (r: Option<u8>)
    ensures
        r == narrow(lenient(s)),
{
    match take_lenient(s) {
        Some(n) => Some(n as u8),
        None => None,
    }
}

fn take_narrow32(s: Slot<u64>) -> (r: Option<u32>)
    ensures
        r == narrow32(lenient(s)),
{
    match take_lenient(s) {
        Some(n) => Some(n as u32),
        None => None,
    }
}

/// Sorts a DEVICE object's fields into the shape that `device_of` gives.
pub fn classify_device(f: DeviceFields) -> (r: DeviceObject)
    ensures
        r == device_of(f),
{
    let secondary = check_secondary(&f);
    if secondary && is_given(&f.activated) && is_given(&f.flags) && is_given(&f.driver) {
        DeviceObject::ActiveSeenPackets {
            path: take_lenient(f.path),
            activated: take_given(f.activated),
            flags: take_given(f.flags) as u8,
            driver: take_given(f.driver),
            subtype: take_lenient(f.subtype),
            bps: take_narrow32(f.bps),
            parity: take_lenient(f.parity),
            stopbits: take_lenient(f.stopbits),
            native: take_narrow(f.native),
            cycle: take_lenient(f.cycle),
            minicycle: take_lenient(f.minicycle),
        }
    } else if secondary && is_given(&f.activated) {
        DeviceObject::Active {
            path: take_lenient(f.path),
            activated: take_given(f.activated),
            subtype: take_lenient(f.subtype),
            bps: take_narrow32(f.bps),
            parity: take_lenient(f.parity),
            stopbits: take_lenient(f.stopbits),
            native: take_narrow(f.native),
            cycle: take_lenient(f.cycle),
            minicycle: take_lenient(f.minicycle),
        }
    } else {
        DeviceObject::Inactive { path: take_lenient(f.path) }
    }
}

} // verus!
