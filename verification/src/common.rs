//! Common value types of the stagedef object model.
//!
//! Floating-point fields of the on-disk format are carried as their raw
//! 32-bit IEEE-754 bit patterns (`u32`): the decoder never interprets them
//! numerically, it only moves them from the byte stream into the graph.

use vstd::prelude::*;

verus! {

/// Byte order of a stagedef buffer. Every primitive read is parameterized by
/// this value; it is never global state.
#[derive(Clone, Copy, Debug, PartialEq, Eq, Structural)]
pub enum Endianness {
    BigEndian,
    LittleEndian,
}

impl Default for Endianness {
    fn default() -> (r: Self)
        ensures
            r == Endianness::BigEndian,
    {
        Endianness::BigEndian
    }
}

/// Game variant whose schema tables drive the decode. Only the SMB2 table is
/// populated; SMB1 must be rejected up front rather than misread.
#[derive(Clone, Copy, Debug, PartialEq, Eq, Structural)]
pub enum Game {
    SMB1,
    SMB2,
    SMBDX,
}

impl Default for Game {
    fn default() -> (r: Self)
        ensures
            r == Game::SMB2,
    {
        Game::SMB2
    }
}

/// Error of a decode that could not produce any stage graph.
///
/// Field-level misses are not errors: they default the affected field only.
#[derive(Clone, Copy, Debug, PartialEq, Eq, Structural)]
pub enum DecodeError {
    /// The requested game variant has no schema table.
    UnsupportedVariant,
    /// The buffer is too short to hold the fixed file-header field region,
    /// so the file-header schema cannot be resolved.
    TruncatedHeader,
}

/// 32-bit floating point 3 dimensional vector, carried as raw bit patterns.
#[derive(Clone, Copy, Debug, PartialEq, Eq, Structural)]
pub struct Vector3 {
    /// IEEE-754 bits of the x component.
    pub x: u32,
    /// IEEE-754 bits of the y component.
    pub y: u32,
    /// IEEE-754 bits of the z component.
    pub z: u32,
}

impl Default for Vector3 {
    fn default() -> (r: Self)
        ensures
            r == (Vector3 { x: 0, y: 0, z: 0 }),
    {
        Vector3 { x: 0, y: 0, z: 0 }
    }
}

/// 16-bit 'short' 3 dimensional vector. Represents rotations: a component
/// spans a full turn over its 65536 raw steps.
#[derive(Clone, Copy, Debug, PartialEq, Eq, Structural)]
pub struct ShortVector3 {
    pub x: u16,
    pub y: u16,
    pub z: u16,
}

impl Default for ShortVector3 {
    fn default() -> (r: Self)
        ensures
            r == (ShortVector3 { x: 0, y: 0, z: 0 }),
    {
        ShortVector3 { x: 0, y: 0, z: 0 }
    }
}

/// Kind of a goal object, stored on disk as a single byte.
#[derive(Clone, Copy, Debug, PartialEq, Eq, Structural)]
pub enum GoalType {
    Blue,
    Green,
    Red,
}

impl Default for GoalType {
    fn default() -> (r: Self)
        ensures
            r == GoalType::Blue,
    {
        GoalType::Blue
    }
}

impl GoalType {
    /// The byte values 0, 1, 2 tag the three goal kinds; any other byte is a
    /// decode failure for the containing goal record.
    pub open spec fn spec_from_u8(v: u8) -> Option<GoalType> {
        if v == 0 {
            Some(GoalType::Blue)
        } else if v == 1 {
            Some(GoalType::Green)
        } else if v == 2 {
            Some(GoalType::Red)
        } else {
            None
        }
    }

    pub fn from_u8(v: u8) -> (r: Option<GoalType>)
        ensures
            r == GoalType::spec_from_u8(v),
    {
        if v == 0 {
            Some(GoalType::Blue)
        } else if v == 1 {
            Some(GoalType::Green)
        } else if v == 2 {
            Some(GoalType::Red)
        } else {
            None
        }
    }
}

/// Kind of a banana object, stored on disk as a 32-bit value.
#[derive(Clone, Copy, Debug, PartialEq, Eq, Structural)]
pub enum BananaType {
    Single,
    Bunch,
}

impl BananaType {
    /// The values 0 and 1 tag the two banana kinds; any other value is a
    /// decode failure for the containing banana record.
    pub open spec fn spec_from_u32(v: u32) -> Option<BananaType> {
        if v == 0 {
            Some(BananaType::Single)
        } else if v == 1 {
            Some(BananaType::Bunch)
        } else {
            None
        }
    }

    pub fn from_u32(v: u32) -> (r: Option<BananaType>)
        ensures
            r == BananaType::spec_from_u32(v),
    {
        if v == 0 {
            Some(BananaType::Single)
        } else if v == 1 {
            Some(BananaType::Bunch)
        } else {
            None
        }
    }
}

/// Playback state of a collision-header animation.
#[derive(Clone, Copy, Debug, PartialEq, Eq, Structural)]
pub enum AnimationState {
    Play,
    Pause,
    Reverse,
    FastForward,
    FastReverse,
}

/// Behaviour class of a collision-header animation.
#[derive(Clone, Copy, Debug, PartialEq, Eq, Structural)]
pub enum AnimationType {
    LoopingAnimation,
    PlayOnceAnimation,
    Seesaw,
}

/// Placeholder for the not-yet-mapped animation header record.
#[derive(Clone, Copy, Debug, PartialEq, Eq, Structural)]
pub struct Animation {}

/// One triangle of a collision mesh, with its precomputed edge deltas and
/// tangents. Like every other floating-point field of the format, the
/// components are carried as raw IEEE-754 bit patterns.
#[derive(Clone, Copy, Debug, PartialEq, Eq, Structural)]
pub struct CollisionTriangle {
    pub position: Vector3,
    pub normal: Vector3,
    pub rotation: ShortVector3,
    pub delta_x2_x1: u32,
    pub delta_y2_y1: u32,
    pub delta_x3_x1: u32,
    pub delta_y3_y1: u32,
    pub x_tangent: u32,
    pub y_tangent: u32,
    pub x_bitangent: u32,
    pub y_bitangent: u32,
}

/// Handle to a decoded record held in one of the per-kind arenas of a
/// [`crate::stagedef::StageDef`].
///
/// Two handles with the same `object` slot denote the very same record, so a
/// mutation through one view is a mutation seen through all views; `index` is
/// the position of the record within the particular list that exposes the
/// handle, re-numbered from zero per list.
#[derive(Clone, Copy, Debug, PartialEq, Eq, Structural)]
pub struct GlobalStagedefObject {
    /// Arena slot of the shared record; equal slots mean shared identity.
    pub object: usize,
    /// Position of this view of the record within its owning list.
    pub index: u32,
}

impl GlobalStagedefObject {
    pub fn new(object: usize, index: u32) -> (r: Self)
        ensures
            r == (GlobalStagedefObject { object, index }),
    {
        GlobalStagedefObject { object, index }
    }
}

/// Fixed facts about an object kind of the stagedef catalog: a display name,
/// a description, and the declared on-disk byte size of one record.
pub trait StageDefObject {
    /// Declared on-disk byte size of one record of this kind.
    spec fn size_spec() -> int;

    fn get_name() -> (r: &'static str);

    fn get_description() -> (r: &'static str);

    fn get_size() -> (r: u32)
        ensures
            r as int == Self::size_spec(),
    ;
}

/// An object kind that can be decoded from a byte buffer at an offset.
///
/// The decode is a pure function of the buffer contents, the offset and the
/// byte order; `try_from_bytes` is proved to return exactly what
/// `decode_spec` states.
pub trait StageDefParsable: StageDefObject + Sized {
    /// The record decoded at byte offset `off`, or `None` when a field lies
    /// outside the buffer or carries an invalid tag value.
    spec fn decode_spec(b: Seq<u8>, off: int, e: Endianness) -> Option<Self>;

    /// Every record size of the catalog is positive and small; list-walking
    /// offset arithmetic stays far below the 64-bit bound because of this.
    proof fn lemma_size_bounds()
        ensures
            0 < Self::size_spec() <= 0x1000,
    ;

    fn try_from_bytes(buf: &Vec<u8>, off: u64, e: Endianness) -> (r: Option<Self>)
        ensures
            r == Self::decode_spec(buf@, off as int, e),
    ;
}

} // verus!
