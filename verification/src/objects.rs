//! The stagedef object catalog: each kind is a fixed-size, fixed-layout
//! record with a declared on-disk byte size and a decode routine proved
//! equal to its spec function.
//!
//! A record decodes to `Some` exactly when its whole declared extent lies
//! inside the buffer and every tag byte carries a known value; the field
//! layout (including the single padding byte some kinds skip before their
//! scale or radius fields) follows the on-disk format.

use vstd::prelude::*;

use crate::bytes::in_range;
use crate::bytes::read_u16;
use crate::bytes::read_u32;
use crate::bytes::read_u8;
use crate::bytes::read_vec3;
use crate::bytes::read_vec3_short;
use crate::bytes::spec_u16_at;
use crate::bytes::spec_u32_at;
use crate::bytes::spec_vec3_at;
use crate::bytes::spec_vec3_short_at;
use crate::common::BananaType;
use crate::common::Endianness;
use crate::common::GoalType;
use crate::common::ShortVector3;
use crate::common::StageDefObject;
use crate::common::StageDefParsable;
use crate::common::Vector3;

verus! {

/// A goal object. The collision for goals is hardcoded.
#[derive(Clone, Copy, Debug, PartialEq, Eq, Structural)]
pub struct Goal {
    pub position: Vector3,
    pub rotation: ShortVector3,
    pub goal_type: GoalType,
}

impl StageDefObject for Goal {
    open spec fn size_spec() -> int {
        0x14
    }

    fn get_name() -> (r: &'static str) {
        "Goal"
    }

    fn get_description() -> (r: &'static str) {
        "A goal object. The collision for goals is hardcoded."
    }

    fn get_size() -> (r: u32)
        ensures
            r as int == Self::size_spec(),
    {
        0x14
    }
}

impl StageDefParsable for Goal {
    open spec fn decode_spec(b: Seq<u8>, off: int, e: Endianness) -> Option<Goal> {
        if in_range(b, off, 0x14) {
            match GoalType::spec_from_u8(b[off + 0x12]) {
                Some(goal_type) => Some(
                    Goal {
                        position: spec_vec3_at(b, off, e),
                        rotation: spec_vec3_short_at(b, off + 0xC, e),
                        goal_type,
                    },
                ),
                None => None,
            }
        } else {
            None
        }
    }

    proof fn lemma_size_bounds() {
    }

    fn try_from_bytes(buf: &Vec<u8>, off: u64, e: Endianness) -> (r: Option<Goal>)
        ensures
            r == Self::decode_spec(buf@, off as int, e),
    {
        if off < buf.len() as u64 && buf.len() as u64 - off >= 0x14 {
            let position = read_vec3(buf, off, e).unwrap();
            let rotation = read_vec3_short(buf, off + 0xC, e).unwrap();
            let tag = read_u8(buf, off + 0x12).unwrap();
            match GoalType::from_u8(tag) {
                Some(goal_type) => Some(Goal { position, rotation, goal_type }),
                None => None,
            }
        } else {
            None
        }
    }
}

/// A bumper.
#[derive(Clone, Copy, Debug, PartialEq, Eq, Structural)]
pub struct Bumper {
    pub position: Vector3,
    pub rotation: ShortVector3,
    pub scale: Vector3,
}

impl StageDefObject for Bumper {
    open spec fn size_spec() -> int {
        0x20
    }

    fn get_name() -> (r: &'static str) {
        "Bumper"
    }

    fn get_description() -> (r: &'static str) {
        "A bumper."
    }

    fn get_size() -> (r: u32)
        ensures
            r as int == Self::size_spec(),
    {
        0x20
    }
}

impl StageDefParsable for Bumper {
    open spec fn decode_spec(b: Seq<u8>, off: int, e: Endianness) -> Option<Bumper> {
        if in_range(b, off, 0x20) {
            Some(
                Bumper {
                    position: spec_vec3_at(b, off, e),
                    rotation: spec_vec3_short_at(b, off + 0xC, e),
                    scale: spec_vec3_at(b, off + 0x13, e),
                },
            )
        } else {
            None
        }
    }

    proof fn lemma_size_bounds() {
    }

    fn try_from_bytes(buf: &Vec<u8>, off: u64, e: Endianness) -> (r: Option<Bumper>)
        ensures
            r == Self::decode_spec(buf@, off as int, e),
    {
        if off < buf.len() as u64 && buf.len() as u64 - off >= 0x20 {
            let position = read_vec3(buf, off, e).unwrap();
            let rotation = read_vec3_short(buf, off + 0xC, e).unwrap();
            let scale = read_vec3(buf, off + 0x13, e).unwrap();
            Some(Bumper { position, rotation, scale })
        } else {
            None
        }
    }
}

/// A jamabar: a rectangular prism that tilts on a fixed axis with the stage.
#[derive(Clone, Copy, Debug, PartialEq, Eq, Structural)]
pub struct Jamabar {
    pub position: Vector3,
    pub rotation: ShortVector3,
    pub scale: Vector3,
}

impl StageDefObject for Jamabar {
    open spec fn size_spec() -> int {
        0x20
    }

    fn get_name() -> (r: &'static str) {
        "Jamabar"
    }

    fn get_description() -> (r: &'static str) {
        "A jamabar - rectangular prisms that tilt on a fixed axis depending on the stage tilt."
    }

    fn get_size() -> (r: u32)
        ensures
            r as int == Self::size_spec(),
    {
        0x20
    }
}

impl StageDefParsable for Jamabar {
    open spec fn decode_spec(b: Seq<u8>, off: int, e: Endianness) -> Option<Jamabar> {
        if in_range(b, off, 0x20) {
            Some(
                Jamabar {
                    position: spec_vec3_at(b, off, e),
                    rotation: spec_vec3_short_at(b, off + 0xC, e),
                    scale: spec_vec3_at(b, off + 0x13, e),
                },
            )
        } else {
            None
        }
    }

    proof fn lemma_size_bounds() {
    }

    fn try_from_bytes(buf: &Vec<u8>, off: u64, e: Endianness) -> (r: Option<Jamabar>)
        ensures
            r == Self::decode_spec(buf@, off as int, e),
    {
        if off < buf.len() as u64 && buf.len() as u64 - off >= 0x20 {
            let position = read_vec3(buf, off, e).unwrap();
            let rotation = read_vec3_short(buf, off + 0xC, e).unwrap();
            let scale = read_vec3(buf, off + 0x13, e).unwrap();
            Some(Jamabar { position, rotation, scale })
        } else {
            None
        }
    }
}

/// A banana object. Can also be a banana bunch.
#[derive(Clone, Copy, Debug, PartialEq, Eq, Structural)]
pub struct Banana {
    pub position: Vector3,
    pub banana_type: BananaType,
}

impl StageDefObject for Banana {
    open spec fn size_spec() -> int {
        0x10
    }

    fn get_name() -> (r: &'static str) {
        "Banana"
    }

    fn get_description() -> (r: &'static str) {
        "A banana object. Can also be a banana bunch."
    }

    fn get_size() -> (r: u32)
        ensures
            r as int == Self::size_spec(),
    {
        0x10
    }
}

impl StageDefParsable for Banana {
    open spec fn decode_spec(b: Seq<u8>, off: int, e: Endianness) -> Option<Banana> {
        if in_range(b, off, 0x10) {
            match BananaType::spec_from_u32(spec_u32_at(b, off + 0xC, e)) {
                Some(banana_type) => Some(
                    Banana { position: spec_vec3_at(b, off, e), banana_type },
                ),
                None => None,
            }
        } else {
            None
        }
    }

    proof fn lemma_size_bounds() {
    }

    fn try_from_bytes(buf: &Vec<u8>, off: u64, e: Endianness) -> (r: Option<Banana>)
        ensures
            r == Self::decode_spec(buf@, off as int, e),
    {
        if off < buf.len() as u64 && buf.len() as u64 - off >= 0x10 {
            let position = read_vec3(buf, off, e).unwrap();
            let tag = read_u32(buf, off + 0xC, e).unwrap();
            match BananaType::from_u32(tag) {
                Some(banana_type) => Some(Banana { position, banana_type }),
                None => None,
            }
        } else {
            None
        }
    }
}

/// A conical region the ball can collide with.
#[derive(Clone, Copy, Debug, PartialEq, Eq, Structural)]
pub struct ConeCollisionObject {
    pub position: Vector3,
    pub rotation: ShortVector3,
    /// IEEE-754 bits of the lower radius.
    pub radius_1: u32,
    /// IEEE-754 bits of the height.
    pub height: u32,
    /// IEEE-754 bits of the upper radius.
    pub radius_2: u32,
}

impl StageDefObject for ConeCollisionObject {
    open spec fn size_spec() -> int {
        0x20
    }

    fn get_name() -> (r: &'static str) {
        "Cone Collision"
    }

    fn get_description() -> (r: &'static str) {
        "A conical region that the ball can collide with. Used for efficiently calculating collision against cone-shaped objects."
    }

    fn get_size() -> (r: u32)
        ensures
            r as int == Self::size_spec(),
    {
        0x20
    }
}

impl StageDefParsable for ConeCollisionObject {
    open spec fn decode_spec(b: Seq<u8>, off: int, e: Endianness) -> Option<ConeCollisionObject> {
        if in_range(b, off, 0x20) {
            Some(
                ConeCollisionObject {
                    position: spec_vec3_at(b, off, e),
                    rotation: spec_vec3_short_at(b, off + 0xC, e),
                    radius_1: spec_u32_at(b, off + 0x13, e),
                    height: spec_u32_at(b, off + 0x17, e),
                    radius_2: spec_u32_at(b, off + 0x1B, e),
                },
            )
        } else {
            None
        }
    }

    proof fn lemma_size_bounds() {
    }

    fn try_from_bytes(buf: &Vec<u8>, off: u64, e: Endianness) -> (r: Option<ConeCollisionObject>)
        ensures
            r == Self::decode_spec(buf@, off as int, e),
    {
        if off < buf.len() as u64 && buf.len() as u64 - off >= 0x20 {
            let position = read_vec3(buf, off, e).unwrap();
            let rotation = read_vec3_short(buf, off + 0xC, e).unwrap();
            let radius_1 = read_u32(buf, off + 0x13, e).unwrap();
            let height = read_u32(buf, off + 0x17, e).unwrap();
            let radius_2 = read_u32(buf, off + 0x1B, e).unwrap();
            Some(ConeCollisionObject { position, rotation, radius_1, height, radius_2 })
        } else {
            None
        }
    }
}

/// A spherical region the ball can collide with.
#[derive(Clone, Copy, Debug, PartialEq, Eq, Structural)]
pub struct SphereCollisionObject {
    pub position: Vector3,
    /// IEEE-754 bits of the radius.
    pub radius: u32,
    pub unk0x10: u32,
}

impl StageDefObject for SphereCollisionObject {
    open spec fn size_spec() -> int {
        0x14
    }

    fn get_name() -> (r: &'static str) {
        "Sphere Collision"
    }

    fn get_description() -> (r: &'static str) {
        "A spherical region that the ball can collide with. Used for efficiently calculating collision against sphere-shaped objects."
    }

    fn get_size() -> (r: u32)
        ensures
            r as int == Self::size_spec(),
    {
        0x14
    }
}

impl StageDefParsable for SphereCollisionObject {
    open spec fn decode_spec(b: Seq<u8>, off: int, e: Endianness) -> Option<
        SphereCollisionObject,
    > {
        if in_range(b, off, 0x14) {
            Some(
                SphereCollisionObject {
                    position: spec_vec3_at(b, off, e),
                    radius: spec_u32_at(b, off + 0xC, e),
                    unk0x10: spec_u32_at(b, off + 0x10, e),
                },
            )
        } else {
            None
        }
    }

    proof fn lemma_size_bounds() {
    }

    fn try_from_bytes(buf: &Vec<u8>, off: u64, e: Endianness) -> (r: Option<SphereCollisionObject>)
        ensures
            r == Self::decode_spec(buf@, off as int, e),
    {
        if off < buf.len() as u64 && buf.len() as u64 - off >= 0x14 {
            let position = read_vec3(buf, off, e).unwrap();
            let radius = read_u32(buf, off + 0xC, e).unwrap();
            let unk0x10 = read_u32(buf, off + 0x10, e).unwrap();
            Some(SphereCollisionObject { position, radius, unk0x10 })
        } else {
            None
        }
    }
}

/// A cylindrical region the ball can collide with.
#[derive(Clone, Copy, Debug, PartialEq, Eq, Structural)]
pub struct CylinderCollisionObject {
    pub position: Vector3,
    /// IEEE-754 bits of the radius.
    pub radius: u32,
    /// IEEE-754 bits of the height.
    pub height: u32,
    pub rotation: ShortVector3,
    pub unk0x1a: u16,
}

impl StageDefObject for CylinderCollisionObject {
    open spec fn size_spec() -> int {
        0x1C
    }

    fn get_name() -> (r: &'static str) {
        "Cylinder Collision"
    }

    fn get_description() -> (r: &'static str) {
        "A cylindrical region that the ball can collide with. Used for efficiently calculating collision against cylinder-shaped objects."
    }

    fn get_size() -> (r: u32)
        ensures
            r as int == Self::size_spec(),
    {
        0x1C
    }
}

impl StageDefParsable for CylinderCollisionObject {
    open spec fn decode_spec(b: Seq<u8>, off: int, e: Endianness) -> Option<
        CylinderCollisionObject,
    > {
        if in_range(b, off, 0x1C) {
            Some(
                CylinderCollisionObject {
                    position: spec_vec3_at(b, off, e),
                    radius: spec_u32_at(b, off + 0xC, e),
                    height: spec_u32_at(b, off + 0x10, e),
                    rotation: spec_vec3_short_at(b, off + 0x14, e),
                    unk0x1a: spec_u16_at(b, off + 0x1A, e),
                },
            )
        } else {
            None
        }
    }

    proof fn lemma_size_bounds() {
    }

    fn try_from_bytes(buf: &Vec<u8>, off: u64, e: Endianness) -> (r: Option<
        CylinderCollisionObject,
    >)
        ensures
            r == Self::decode_spec(buf@, off as int, e),
    {
        if off < buf.len() as u64 && buf.len() as u64 - off >= 0x1C {
            let position = read_vec3(buf, off, e).unwrap();
            let radius = read_u32(buf, off + 0xC, e).unwrap();
            let height = read_u32(buf, off + 0x10, e).unwrap();
            let rotation = read_vec3_short(buf, off + 0x14, e).unwrap();
            let unk0x1a = read_u16(buf, off + 0x1A, e).unwrap();
            Some(CylinderCollisionObject { position, radius, height, rotation, unk0x1a })
        } else {
            None
        }
    }
}

/// A volume that causes a fall out when the ball is inside it.
#[derive(Clone, Copy, Debug, PartialEq, Eq, Structural)]
pub struct FalloutVolume {
    pub position: Vector3,
    pub size: Vector3,
    pub rotation: ShortVector3,
    pub unk0x1e: u16,
}

impl StageDefObject for FalloutVolume {
    open spec fn size_spec() -> int {
        0x20
    }

    fn get_name() -> (r: &'static str) {
        "Fallout Volume"
    }

    fn get_description() -> (r: &'static str) {
        "A volume that causes a fall out when the ball is within the volume."
    }

    fn get_size() -> (r: u32)
        ensures
            r as int == Self::size_spec(),
    {
        0x20
    }
}

impl StageDefParsable for FalloutVolume {
    open spec fn decode_spec(b: Seq<u8>, off: int, e: Endianness) -> Option<FalloutVolume> {
        if in_range(b, off, 0x20) {
            Some(
                FalloutVolume {
                    position: spec_vec3_at(b, off, e),
                    size: spec_vec3_at(b, off + 0xC, e),
                    rotation: spec_vec3_short_at(b, off + 0x18, e),
                    unk0x1e: spec_u16_at(b, off + 0x1E, e),
                },
            )
        } else {
            None
        }
    }

    proof fn lemma_size_bounds() {
    }

    fn try_from_bytes(buf: &Vec<u8>, off: u64, e: Endianness) -> (r: Option<FalloutVolume>)
        ensures
            r == Self::decode_spec(buf@, off as int, e),
    {
        if off < buf.len() as u64 && buf.len() as u64 - off >= 0x20 {
            let position = read_vec3(buf, off, e).unwrap();
            let size = read_vec3(buf, off + 0xC, e).unwrap();
            let rotation = read_vec3_short(buf, off + 0x18, e).unwrap();
            let unk0x1e = read_u16(buf, off + 0x1E, e).unwrap();
            Some(FalloutVolume { position, size, rotation, unk0x1e })
        } else {
            None
        }
    }
}

/// A background model that does not tilt with the stage.
///
/// The record stores the relocation pointer of its null-terminated model
/// name; [`crate::parser::read_model_name_from_offset`] resolves a pointer
/// field to the name bytes.
#[derive(Clone, Copy, Debug, PartialEq, Eq, Structural)]
pub struct BackgroundModel {
    pub unk_0x0: u32,
    /// Absolute byte offset of the null-terminated model name.
    pub model_name_offset: u32,
    pub unk_0x8: u32,
    pub position: Vector3,
    pub rotation: ShortVector3,
    pub unk_0x1e: u16,
    pub scale: Vector3,
}

impl StageDefObject for BackgroundModel {
    open spec fn size_spec() -> int {
        0x38
    }

    fn get_name() -> (r: &'static str) {
        "BG Model"
    }

    fn get_description() -> (r: &'static str) {
        "A background model that does not tilt with the stage."
    }

    fn get_size() -> (r: u32)
        ensures
            r as int == Self::size_spec(),
    {
        0x38
    }
}

impl StageDefParsable for BackgroundModel {
    open spec fn decode_spec(b: Seq<u8>, off: int, e: Endianness) -> Option<BackgroundModel> {
        if in_range(b, off, 0x38) {
            Some(
                BackgroundModel {
                    unk_0x0: spec_u32_at(b, off, e),
                    model_name_offset: spec_u32_at(b, off + 0x4, e),
                    unk_0x8: spec_u32_at(b, off + 0x8, e),
                    position: spec_vec3_at(b, off + 0xC, e),
                    rotation: spec_vec3_short_at(b, off + 0x18, e),
                    unk_0x1e: spec_u16_at(b, off + 0x1E, e),
                    scale: spec_vec3_at(b, off + 0x20, e),
                },
            )
        } else {
            None
        }
    }

    proof fn lemma_size_bounds() {
    }

    fn try_from_bytes(buf: &Vec<u8>, off: u64, e: Endianness) -> (r: Option<BackgroundModel>)
        ensures
            r == Self::decode_spec(buf@, off as int, e),
    {
        if off < buf.len() as u64 && buf.len() as u64 - off >= 0x38 {
            let unk_0x0 = read_u32(buf, off, e).unwrap();
            let model_name_offset = read_u32(buf, off + 0x4, e).unwrap();
            let unk_0x8 = read_u32(buf, off + 0x8, e).unwrap();
            let position = read_vec3(buf, off + 0xC, e).unwrap();
            let rotation = read_vec3_short(buf, off + 0x18, e).unwrap();
            let unk_0x1e = read_u16(buf, off + 0x1E, e).unwrap();
            let scale = read_vec3(buf, off + 0x20, e).unwrap();
            Some(
                BackgroundModel {
                    unk_0x0,
                    model_name_offset,
                    unk_0x8,
                    position,
                    rotation,
                    unk_0x1e,
                    scale,
                },
            )
        } else {
            None
        }
    }
}

} // verus!
