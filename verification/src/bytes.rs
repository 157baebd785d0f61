//! Typed primitive reads over an in-memory byte buffer.
//!
//! Each executable read is proved to return exactly the value its spec
//! function assembles from the byte sequence, for the requested byte order;
//! a read that would touch bytes outside the buffer returns `None`.

use vstd::prelude::*;

use crate::common::Endianness;
use crate::common::ShortVector3;
use crate::common::Vector3;

verus! {

/// 16-bit value assembled from two adjacent bytes, lower address first.
pub open spec fn spec_u16_of(b0: u8, b1: u8, e: Endianness) -> u16 {
    match e {
        Endianness::BigEndian => (b0 as int * 0x100 + b1 as int) as u16,
        Endianness::LittleEndian => (b1 as int * 0x100 + b0 as int) as u16,
    }
}

/// 32-bit value assembled from four adjacent bytes, lower address first.
pub open spec fn spec_u32_of(b0: u8, b1: u8, b2: u8, b3: u8, e: Endianness) -> u32 {
    match e {
        Endianness::BigEndian => (b0 as int * 0x1000000 + b1 as int * 0x10000 + b2 as int * 0x100
            + b3 as int) as u32,
        Endianness::LittleEndian => (b3 as int * 0x1000000 + b2 as int * 0x10000 + b1 as int
            * 0x100 + b0 as int) as u32,
    }
}

/// Whether the `n` bytes starting at `off` all lie inside `b`.
pub open spec fn in_range(b: Seq<u8>, off: int, n: int) -> bool {
    0 <= off && off + n <= b.len()
}

/// The byte at `off`, or `None` past the end.
pub open spec fn spec_read_u8(b: Seq<u8>, off: int) -> Option<u8> {
    if in_range(b, off, 1) {
        Some(b[off])
    } else {
        None
    }
}

/// The 16-bit value whose bytes sit at `off`, unchecked (meaningful only
/// when the bytes are in range).
pub open spec fn spec_u16_at(b: Seq<u8>, off: int, e: Endianness) -> u16 {
    spec_u16_of(b[off], b[off + 1], e)
}

/// The 32-bit value whose bytes sit at `off`, unchecked (meaningful only
/// when the bytes are in range).
pub open spec fn spec_u32_at(b: Seq<u8>, off: int, e: Endianness) -> u32 {
    spec_u32_of(b[off], b[off + 1], b[off + 2], b[off + 3], e)
}

/// The vector whose twelve bytes sit at `off`, unchecked (meaningful only
/// when the bytes are in range).
pub open spec fn spec_vec3_at(b: Seq<u8>, off: int, e: Endianness) -> Vector3 {
    Vector3 {
        x: spec_u32_at(b, off, e),
        y: spec_u32_at(b, off + 4, e),
        z: spec_u32_at(b, off + 8, e),
    }
}

/// The rotation vector whose six bytes sit at `off`, unchecked (meaningful
/// only when the bytes are in range).
pub open spec fn spec_vec3_short_at(b: Seq<u8>, off: int, e: Endianness) -> ShortVector3 {
    ShortVector3 {
        x: spec_u16_at(b, off, e),
        y: spec_u16_at(b, off + 2, e),
        z: spec_u16_at(b, off + 4, e),
    }
}

/// The 16-bit value read at `off`, or `None` when it would run past the end.
pub open spec fn spec_read_u16(b: Seq<u8>, off: int, e: Endianness) -> Option<u16> {
    if in_range(b, off, 2) {
        Some(spec_u16_at(b, off, e))
    } else {
        None
    }
}

/// The 32-bit value read at `off`, or `None` when it would run past the end.
pub open spec fn spec_read_u32(b: Seq<u8>, off: int, e: Endianness) -> Option<u32> {
    if in_range(b, off, 4) {
        Some(spec_u32_at(b, off, e))
    } else {
        None
    }
}

/// Three consecutive 32-bit bit patterns read as a vector, or `None` when
/// any of the twelve bytes lies past the end.
pub open spec fn spec_read_vec3(b: Seq<u8>, off: int, e: Endianness) -> Option<Vector3> {
    if in_range(b, off, 12) {
        Some(
            Vector3 {
                x: spec_u32_at(b, off, e),
                y: spec_u32_at(b, off + 4, e),
                z: spec_u32_at(b, off + 8, e),
            },
        )
    } else {
        None
    }
}

/// Three consecutive 16-bit components read as a rotation vector, or `None`
/// when any of the six bytes lies past the end.
pub open spec fn spec_read_vec3_short(b: Seq<u8>, off: int, e: Endianness) -> Option<
    ShortVector3,
> {
    if in_range(b, off, 6) {
        Some(
            ShortVector3 {
                x: spec_u16_at(b, off, e),
                y: spec_u16_at(b, off + 2, e),
                z: spec_u16_at(b, off + 4, e),
            },
        )
    } else {
        None
    }
}

/// The 32-bit value read at `off`, with a miss defaulting to zero. Singular
/// file-header fields use this: a field that cannot be read is left at its
/// default rather than failing the decode.
pub open spec fn spec_u32_or_zero(b: Seq<u8>, off: int, e: Endianness) -> u32 {
    match spec_read_u32(b, off, e) {
        Some(v) => v,
        None => 0,
    }
}

/// The vector read at `off`, with a miss defaulting to the zero vector.
pub open spec fn spec_vec3_or_zero(b: Seq<u8>, off: int, e: Endianness) -> Vector3 {
    match spec_read_vec3(b, off, e) {
        Some(v) => v,
        None => Vector3 { x: 0, y: 0, z: 0 },
    }
}

/// The rotation vector read at `off`, with a miss defaulting to zero.
pub open spec fn spec_vec3_short_or_zero(b: Seq<u8>, off: int, e: Endianness) -> ShortVector3 {
    match spec_read_vec3_short(b, off, e) {
        Some(v) => v,
        None => ShortVector3 { x: 0, y: 0, z: 0 },
    }
}

pub fn read_u8(buf: &Vec<u8>, off: u64) -> (r: Option<u8>)
    ensures
        r == spec_read_u8(buf@, off as int),
{
    if off < buf.len() as u64 {
        Some(buf[off as usize])
    } else {
        None
    }
}

pub fn read_u16(buf: &Vec<u8>, off: u64, e: Endianness) -> (r: Option<u16>)
    ensures
        r == spec_read_u16(buf@, off as int, e),
{
    if off < buf.len() as u64 && buf.len() as u64 - off >= 2 {
        let i = off as usize;
        let b0 = buf[i];
        let b1 = buf[i + 1];
        let v: u16 = match e {
            Endianness::BigEndian => (b0 as u16) * 0x100 + (b1 as u16),
            Endianness::LittleEndian => (b1 as u16) * 0x100 + (b0 as u16),
        };
        Some(v)
    } else {
        None
    }
}

pub fn read_u32(buf: &Vec<u8>, off: u64, e: Endianness) -> (r: Option<u32>)
    ensures
        r == spec_read_u32(buf@, off as int, e),
{
    if off < buf.len() as u64 && buf.len() as u64 - off >= 4 {
        let i = off as usize;
        let b0 = buf[i];
        let b1 = buf[i + 1];
        let b2 = buf[i + 2];
        let b3 = buf[i + 3];
        let v: u32 = match e {
            Endianness::BigEndian => (b0 as u32) * 0x1000000 + (b1 as u32) * 0x10000 + (b2 as u32)
                * 0x100 + (b3 as u32),
            Endianness::LittleEndian => (b3 as u32) * 0x1000000 + (b2 as u32) * 0x10000 + (
            b1 as u32) * 0x100 + (b0 as u32),
        };
        Some(v)
    } else {
        None
    }
}

pub fn read_vec3(buf: &Vec<u8>, off: u64, e: Endianness) -> (r: Option<Vector3>)
    ensures
        r == spec_read_vec3(buf@, off as int, e),
{
    if off < buf.len() as u64 && buf.len() as u64 - off >= 12 {
        let x = read_u32(buf, off, e).unwrap();
        let y = read_u32(buf, off + 4, e).unwrap();
        let z = read_u32(buf, off + 8, e).unwrap();
        Some(Vector3 { x, y, z })
    } else {
        None
    }
}

pub fn read_vec3_short(buf: &Vec<u8>, off: u64, e: Endianness) -> (r: Option<ShortVector3>)
    ensures
        r == spec_read_vec3_short(buf@, off as int, e),
{
    if off < buf.len() as u64 && buf.len() as u64 - off >= 6 {
        let x = read_u16(buf, off, e).unwrap();
        let y = read_u16(buf, off + 2, e).unwrap();
        let z = read_u16(buf, off + 4, e).unwrap();
        Some(ShortVector3 { x, y, z })
    } else {
        None
    }
}

pub fn read_u32_or_zero(buf: &Vec<u8>, off: u64, e: Endianness) -> (r: u32)
    ensures
        r == spec_u32_or_zero(buf@, off as int, e),
{
    match read_u32(buf, off, e) {
        Some(v) => v,
        None => 0,
    }
}

pub fn read_vec3_or_zero(buf: &Vec<u8>, off: u64, e: Endianness) -> (r: Vector3)
    ensures
        r == spec_vec3_or_zero(buf@, off as int, e),
{
    match read_vec3(buf, off, e) {
        Some(v) => v,
        None => Vector3 { x: 0, y: 0, z: 0 },
    }
}

pub fn read_vec3_short_or_zero(buf: &Vec<u8>, off: u64, e: Endianness) -> (r: ShortVector3)
    ensures
        r == spec_vec3_short_or_zero(buf@, off as int, e),
{
    match read_vec3_short(buf, off, e) {
        Some(v) => v,
        None => ShortVector3 { x: 0, y: 0, z: 0 },
    }
}

} // verus!
