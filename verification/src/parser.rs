//! Parsing of an uncompressed stagedef binary.
//!
//! The byte buffer is decoded in file order: the file-header schema is
//! resolved at fixed offsets, the singular fields and the global object
//! lists are read through it, and the collision headers are read last so
//! that their local lists can be reconciled against the already-populated
//! global lists. Every function is proved to return exactly what its spec
//! function assembles from the byte sequence.

use vstd::prelude::*;

use crate::bytes::in_range;
use crate::bytes::read_u32;
use crate::bytes::read_u32_or_zero;
use crate::bytes::read_vec3_or_zero;
use crate::bytes::read_vec3_short_or_zero;
use crate::bytes::spec_read_u32;
use crate::bytes::spec_u32_at;
use crate::bytes::spec_u32_or_zero;
use crate::bytes::spec_vec3_or_zero;
use crate::bytes::spec_vec3_short_or_zero;
use crate::common::DecodeError;
use crate::common::Endianness;
use crate::common::Game;
use crate::common::GlobalStagedefObject;
use crate::common::ShortVector3;
use crate::common::StageDefParsable;
use crate::common::Vector3;
use crate::objects::BackgroundModel;
use crate::objects::Banana;
use crate::objects::Bumper;
use crate::objects::ConeCollisionObject;
use crate::objects::CylinderCollisionObject;
use crate::objects::FalloutVolume;
use crate::objects::Goal;
use crate::objects::Jamabar;
use crate::objects::SphereCollisionObject;
use crate::stagedef::CollisionHeader;
use crate::stagedef::CollisionHeaderView;
use crate::stagedef::StageDef;
use crate::stagedef::StageDefView;

verus! {

/// Possible file offset types within a stagedef.
///
/// A `CountOffset` pair whose count or offset is zero is normalized to
/// `Unused` at read time, once and centrally, so every downstream consumer
/// sees one notion of absence.
#[derive(Clone, Copy, Debug, PartialEq, Eq, Structural)]
pub enum FileOffset {
    /// The offset, or the structure it refers to, does not exist in this
    /// format. Nothing will be read.
    Unused,
    /// The offset points to a single structure.
    OffsetOnly(u64),
    /// The offset points to a contiguous list of structures: element count,
    /// then absolute byte offset of the first element.
    CountOffset(u32, u64),
}

impl Default for FileOffset {
    fn default() -> (r: Self)
        ensures
            r == FileOffset::Unused,
    {
        FileOffset::Unused
    }
}

/// A single-offset field read at `off`: the 32-bit value widened to a byte
/// address, or `None` when the field itself lies past the end.
pub open spec fn spec_read_offset(b: Seq<u8>, off: int, e: Endianness) -> Option<FileOffset> {
    match spec_read_u32(b, off, e) {
        Some(v) => Some(FileOffset::OffsetOnly(v as u64)),
        None => None,
    }
}

/// Normalization of an on-disk count/offset pair: a zero count or a zero
/// offset means the list is absent.
pub open spec fn spec_normalize_count_offset(count: u32, offset: u32) -> FileOffset {
    if count == 0 || offset == 0 {
        FileOffset::Unused
    } else {
        FileOffset::CountOffset(count, offset as u64)
    }
}

/// A count/offset field read at `off`, normalized; `None` when the eight
/// bytes of the field lie past the end.
pub open spec fn spec_read_count_offset(b: Seq<u8>, off: int, e: Endianness) -> Option<
    FileOffset,
> {
    if in_range(b, off, 8) {
        Some(spec_normalize_count_offset(spec_u32_at(b, off, e), spec_u32_at(b, off + 4, e)))
    } else {
        None
    }
}

pub fn read_offset(buf: &Vec<u8>, off: u64, e: Endianness) -> (r: Option<FileOffset>)
    ensures
        r == spec_read_offset(buf@, off as int, e),
{
    match read_u32(buf, off, e) {
        Some(v) => Some(FileOffset::OffsetOnly(v as u64)),
        None => None,
    }
}

pub fn read_count_offset(buf: &Vec<u8>, off: u64, e: Endianness) -> (r: Option<FileOffset>)
    ensures
        r == spec_read_count_offset(buf@, off as int, e),
{
    if off < buf.len() as u64 && buf.len() as u64 - off >= 8 {
        let count = read_u32(buf, off, e).unwrap();
        let offset = read_u32(buf, off + 4, e).unwrap();
        if count == 0 || offset == 0 {
            Some(FileOffset::Unused)
        } else {
            Some(FileOffset::CountOffset(count, offset as u64))
        }
    } else {
        None
    }
}

/// Byte distance `x - y` between two absolute offsets, or `None` when it
/// would be negative.
pub fn try_get_offset_difference(x: u64, y: u64) -> (r: Option<u64>)
    ensures
        r == (if x >= y {
            Some((x - y) as u64)
        } else {
            None::<u64>
        }),
{
    if x >= y {
        Some(x - y)
    } else {
        None
    }
}

/// Position of the first zero byte at or after `i`, or `None` when no zero
/// byte follows before the end of the buffer.
pub open spec fn spec_nul_pos(b: Seq<u8>, i: int) -> Option<int>
    decreases b.len() - i,
{
    if i < 0 || i >= b.len() {
        None
    } else if b[i] == 0 {
        Some(i)
    } else {
        spec_nul_pos(b, i + 1)
    }
}

/// Scanning for the terminator may start anywhere inside a zero-free run:
/// the first zero at or after `p` is the first zero at or after `j`.
proof fn lemma_nul_pos_skip(b: Seq<u8>, p: int, j: int)
    requires
        0 <= p <= j <= b.len(),
        forall|k: int| p <= k < j ==> b[k] != 0,
    ensures
        spec_nul_pos(b, p) == spec_nul_pos(b, j),
    decreases j - p,
{
    if p < j {
        assert(b[p] != 0);
        lemma_nul_pos_skip(b, p + 1, j);
    }
}

/// A relocation-table string reference resolved at `field_off`: the 32-bit
/// pointer stored there, followed to its null-terminated byte sequence.
pub open spec fn spec_read_name(b: Seq<u8>, field_off: int, e: Endianness) -> Option<Seq<u8>> {
    match spec_read_u32(b, field_off, e) {
        Some(p) => match spec_nul_pos(b, p as int) {
            Some(j) => Some(b.subrange(p as int, j)),
            None => None,
        },
        None => None,
    }
}

/// Reads the 32-bit name pointer at `field_off`, jumps to it, and collects
/// the bytes of the name up to (excluding) its null terminator. `None` when
/// the pointer field is unreadable or no terminator follows the pointer.
pub fn read_model_name_from_offset(buf: &Vec<u8>, field_off: u64, e: Endianness) -> (r: Option<
    Vec<u8>,
>)
    ensures
        r is Some <==> spec_read_name(buf@, field_off as int, e) is Some,
        r matches Some(v) ==> spec_read_name(buf@, field_off as int, e) == Some(v@),
{
    match read_u32(buf, field_off, e) {
        None => None,
        Some(p32) => {
            let p: u64 = p32 as u64;
            if p >= buf.len() as u64 {
                return None;
            }
            let mut out: Vec<u8> = Vec::new();
            let mut j: u64 = p;
            while j < buf.len() as u64 && *buf.get(j as usize).unwrap() != 0
                invariant
                    p <= j <= buf@.len(),
                    out@ == buf@.subrange(p as int, j as int),
                    forall|k: int| p <= k < j ==> buf@[k] != 0,
                decreases buf@.len() - j,
            {
                out.push(*buf.get(j as usize).unwrap());
                proof {
                    assert(buf@.subrange(p as int, j + 1) =~= buf@.subrange(p as int, j as int)
                        .push(buf@[j as int]));
                }
                j = j + 1;
            }
            proof {
                lemma_nul_pos_skip(buf@, p as int, j as int);
            }
            if j < buf.len() as u64 {
                Some(out)
            } else {
                None
            }
        },
    }
}

/// The file header format for a stagedef file.
///
/// Each field holds the location of the structure it names: resolved from
/// fixed absolute byte offsets in a first pass, then populated with the
/// dynamic count/offset values stored there in a second pass.
#[derive(Clone, Copy, Debug, PartialEq, Eq, Structural)]
pub struct StageDefFileHeaderFormat {
    pub magic_number_1_offset: FileOffset,
    pub magic_number_2_offset: FileOffset,
    pub collision_header_list_offset: FileOffset,
    pub start_position_ptr_offset: FileOffset,
    pub fallout_position_ptr_offset: FileOffset,
    pub goal_list_offset: FileOffset,
    pub bumper_list_offset: FileOffset,
    pub jamabar_list_offset: FileOffset,
    pub banana_list_offset: FileOffset,
    pub cone_col_list_offset: FileOffset,
    pub sphere_col_list_offset: FileOffset,
    pub cyl_col_list_offset: FileOffset,
    pub fallout_vol_list_offset: FileOffset,
    pub bg_model_list_offset: FileOffset,
    pub fg_model_list_offset: FileOffset,
    pub reflective_model_list_offset: FileOffset,
    pub model_instance_list_offset: FileOffset,
    pub model_ptr_a_list_offset: FileOffset,
    pub model_ptr_b_list_offset: FileOffset,
    pub switch_list_offset: FileOffset,
    pub fog_anim_ptr_offset: FileOffset,
    pub wormhole_list_offset: FileOffset,
    pub fog_ptr_offset: FileOffset,
    pub mystery_3_ptr_offset: FileOffset,
}

/// Number of bytes the fixed file-header field region spans: every dynamic
/// header field lives below this bound, so resolving the schema needs the
/// buffer to reach it.
pub const FILE_HEADER_FIXED_REGION: u64 = 0xD8;

/// The resolved file-header table of the SMB2 schema: for each field, the
/// dynamic value read at its fixed absolute offset. Meaningful when the
/// buffer covers the fixed region.
pub open spec fn spec_file_header(b: Seq<u8>, e: Endianness) -> StageDefFileHeaderFormat {
    StageDefFileHeaderFormat {
        magic_number_1_offset: FileOffset::OffsetOnly(0x0),
        magic_number_2_offset: FileOffset::OffsetOnly(0x4),
        collision_header_list_offset: spec_normalize_count_offset(
            spec_u32_at(b, 0x8, e),
            spec_u32_at(b, 0xC, e),
        ),
        start_position_ptr_offset: FileOffset::OffsetOnly(spec_u32_at(b, 0x10, e) as u64),
        fallout_position_ptr_offset: FileOffset::OffsetOnly(spec_u32_at(b, 0x14, e) as u64),
        goal_list_offset: spec_normalize_count_offset(
            spec_u32_at(b, 0x18, e),
            spec_u32_at(b, 0x1C, e),
        ),
        bumper_list_offset: spec_normalize_count_offset(
            spec_u32_at(b, 0x20, e),
            spec_u32_at(b, 0x24, e),
        ),
        jamabar_list_offset: spec_normalize_count_offset(
            spec_u32_at(b, 0x28, e),
            spec_u32_at(b, 0x2C, e),
        ),
        banana_list_offset: spec_normalize_count_offset(
            spec_u32_at(b, 0x30, e),
            spec_u32_at(b, 0x34, e),
        ),
        cone_col_list_offset: spec_normalize_count_offset(
            spec_u32_at(b, 0x38, e),
            spec_u32_at(b, 0x3C, e),
        ),
        sphere_col_list_offset: spec_normalize_count_offset(
            spec_u32_at(b, 0x40, e),
            spec_u32_at(b, 0x44, e),
        ),
        cyl_col_list_offset: spec_normalize_count_offset(
            spec_u32_at(b, 0x48, e),
            spec_u32_at(b, 0x4C, e),
        ),
        fallout_vol_list_offset: spec_normalize_count_offset(
            spec_u32_at(b, 0x50, e),
            spec_u32_at(b, 0x54, e),
        ),
        bg_model_list_offset: spec_normalize_count_offset(
            spec_u32_at(b, 0x58, e),
            spec_u32_at(b, 0x5C, e),
        ),
        fg_model_list_offset: spec_normalize_count_offset(
            spec_u32_at(b, 0x60, e),
            spec_u32_at(b, 0x64, e),
        ),
        reflective_model_list_offset: spec_normalize_count_offset(
            spec_u32_at(b, 0x70, e),
            spec_u32_at(b, 0x74, e),
        ),
        model_instance_list_offset: spec_normalize_count_offset(
            spec_u32_at(b, 0x84, e),
            spec_u32_at(b, 0x88, e),
        ),
        model_ptr_a_list_offset: spec_normalize_count_offset(
            spec_u32_at(b, 0x90, e),
            spec_u32_at(b, 0x94, e),
        ),
        model_ptr_b_list_offset: spec_normalize_count_offset(
            spec_u32_at(b, 0x98, e),
            spec_u32_at(b, 0x9C, e),
        ),
        switch_list_offset: spec_normalize_count_offset(
            spec_u32_at(b, 0xA8, e),
            spec_u32_at(b, 0xAC, e),
        ),
        fog_anim_ptr_offset: FileOffset::OffsetOnly(spec_u32_at(b, 0xB0, e) as u64),
        wormhole_list_offset: spec_normalize_count_offset(
            spec_u32_at(b, 0xB4, e),
            spec_u32_at(b, 0xB8, e),
        ),
        fog_ptr_offset: FileOffset::OffsetOnly(spec_u32_at(b, 0xBC, e) as u64),
        mystery_3_ptr_offset: FileOffset::OffsetOnly(spec_u32_at(b, 0xD4, e) as u64),
    }
}

/// Every location stored in a resolved file header is a 32-bit value of the
/// file widened to a byte address, so it is bounded by the 32-bit maximum.
pub open spec fn file_header_bounded(fh: StageDefFileHeaderFormat) -> bool {
    &&& (fh.collision_header_list_offset matches FileOffset::CountOffset(_c, o) ==> o
        <= u32::MAX as u64)
    &&& (fh.goal_list_offset matches FileOffset::CountOffset(_c, o) ==> o <= u32::MAX as u64)
    &&& (fh.bumper_list_offset matches FileOffset::CountOffset(_c, o) ==> o <= u32::MAX as u64)
    &&& (fh.jamabar_list_offset matches FileOffset::CountOffset(_c, o) ==> o <= u32::MAX as u64)
    &&& (fh.banana_list_offset matches FileOffset::CountOffset(_c, o) ==> o <= u32::MAX as u64)
    &&& (fh.cone_col_list_offset matches FileOffset::CountOffset(_c, o) ==> o <= u32::MAX as u64)
    &&& (fh.sphere_col_list_offset matches FileOffset::CountOffset(_c, o) ==> o
        <= u32::MAX as u64)
    &&& (fh.cyl_col_list_offset matches FileOffset::CountOffset(_c, o) ==> o <= u32::MAX as u64)
    &&& (fh.fallout_vol_list_offset matches FileOffset::CountOffset(_c, o) ==> o
        <= u32::MAX as u64)
    &&& (fh.bg_model_list_offset matches FileOffset::CountOffset(_c, o) ==> o <= u32::MAX as u64)
}

/// A file header resolved from a buffer satisfies the 32-bit bound on every
/// stored location.
pub proof fn lemma_spec_file_header_bounded(b: Seq<u8>, e: Endianness)
    ensures
        file_header_bounded(spec_file_header(b, e)),
{
}

/// Resolves the file-header schema of `game` against the buffer: a
/// structural failure (unsupported variant, or a buffer too short for the
/// fixed field region) aborts; otherwise every dynamic field value is read
/// from its fixed offset.
pub fn read_file_header_offsets(buf: &Vec<u8>, game: Game, e: Endianness) -> (r: Result<
    StageDefFileHeaderFormat,
    DecodeError,
>)
    ensures
        match r {
            Ok(fh) => game != Game::SMB1 && buf@.len() >= FILE_HEADER_FIXED_REGION && fh
                == spec_file_header(buf@, e),
            Err(DecodeError::UnsupportedVariant) => game == Game::SMB1,
            Err(DecodeError::TruncatedHeader) => game != Game::SMB1 && buf@.len()
                < FILE_HEADER_FIXED_REGION,
        },
{
    match game {
        Game::SMB1 => {
            return Err(DecodeError::UnsupportedVariant);
        },
        Game::SMB2 | Game::SMBDX => {},
    }
    if (buf.len() as u64) < FILE_HEADER_FIXED_REGION {
        return Err(DecodeError::TruncatedHeader);
    }
    let fh = StageDefFileHeaderFormat {
        magic_number_1_offset: FileOffset::OffsetOnly(0x0),
        magic_number_2_offset: FileOffset::OffsetOnly(0x4),
        collision_header_list_offset: read_count_offset(buf, 0x8, e).unwrap(),
        start_position_ptr_offset: read_offset(buf, 0x10, e).unwrap(),
        fallout_position_ptr_offset: read_offset(buf, 0x14, e).unwrap(),
        goal_list_offset: read_count_offset(buf, 0x18, e).unwrap(),
        bumper_list_offset: read_count_offset(buf, 0x20, e).unwrap(),
        jamabar_list_offset: read_count_offset(buf, 0x28, e).unwrap(),
        banana_list_offset: read_count_offset(buf, 0x30, e).unwrap(),
        cone_col_list_offset: read_count_offset(buf, 0x38, e).unwrap(),
        sphere_col_list_offset: read_count_offset(buf, 0x40, e).unwrap(),
        cyl_col_list_offset: read_count_offset(buf, 0x48, e).unwrap(),
        fallout_vol_list_offset: read_count_offset(buf, 0x50, e).unwrap(),
        bg_model_list_offset: read_count_offset(buf, 0x58, e).unwrap(),
        fg_model_list_offset: read_count_offset(buf, 0x60, e).unwrap(),
        reflective_model_list_offset: read_count_offset(buf, 0x70, e).unwrap(),
        model_instance_list_offset: read_count_offset(buf, 0x84, e).unwrap(),
        model_ptr_a_list_offset: read_count_offset(buf, 0x90, e).unwrap(),
        model_ptr_b_list_offset: read_count_offset(buf, 0x98, e).unwrap(),
        switch_list_offset: read_count_offset(buf, 0xA8, e).unwrap(),
        fog_anim_ptr_offset: read_offset(buf, 0xB0, e).unwrap(),
        wormhole_list_offset: read_count_offset(buf, 0xB4, e).unwrap(),
        fog_ptr_offset: read_offset(buf, 0xBC, e).unwrap(),
        mystery_3_ptr_offset: read_offset(buf, 0xD4, e).unwrap(),
    };
    Ok(fh)
}

/// The records of a contiguous list of `count` elements whose first element
/// sits at `off`: element `i` is decoded at `off + i * size`, and an element
/// that fails to decode is skipped without hiding the rest of the list.
pub open spec fn decoded_list<T: StageDefParsable>(
    b: Seq<u8>,
    off: int,
    count: int,
    e: Endianness,
) -> Seq<T>
    decreases count,
{
    if count <= 0 {
        Seq::empty()
    } else {
        let prev = decoded_list::<T>(b, off, count - 1, e);
        match T::decode_spec(b, off + (count - 1) * T::size_spec(), e) {
            Some(t) => prev.push(t),
            None => prev,
        }
    }
}

/// At most one record per on-disk element slot.
pub proof fn lemma_decoded_list_len<T: StageDefParsable>(
    b: Seq<u8>,
    off: int,
    count: int,
    e: Endianness,
)
    ensures
        decoded_list::<T>(b, off, count, e).len() <= (if count >= 0 {
            count
        } else {
            0
        }),
    decreases count,
{
    if count > 0 {
        lemma_decoded_list_len::<T>(b, off, count - 1, e);
    }
}

/// A list never yields more records than its on-disk count, which is a
/// 32-bit value.
pub proof fn lemma_list_records_len<T: StageDefParsable>(b: Seq<u8>, co: FileOffset, e: Endianness)
    ensures
        spec_list_records::<T>(b, co, e).len() <= u32::MAX,
{
    match co {
        FileOffset::CountOffset(c, o) => {
            lemma_decoded_list_len::<T>(b, o as int, c as int, e);
        },
        _ => {},
    }
}

/// The records a count/offset location yields: its list when present, and
/// the empty sequence when the location is absent.
pub open spec fn spec_list_records<T: StageDefParsable>(
    b: Seq<u8>,
    co: FileOffset,
    e: Endianness,
) -> Seq<T> {
    match co {
        FileOffset::CountOffset(c, o) => decoded_list::<T>(b, o as int, c as int, e),
        _ => Seq::<T>::empty(),
    }
}

/// Handles of `n` records freshly appended to an arena that already held
/// `base` records: arena slots `base..base + n`, local indices `0..n`.
pub open spec fn spec_fresh_handles(base: int, n: int) -> Seq<GlobalStagedefObject> {
    Seq::new(
        if n >= 0 {
            n as nat
        } else {
            0
        },
        |k: int| GlobalStagedefObject { object: (base + k) as usize, index: k as u32 },
    )
}

/// Reads a stagedef object list: the records are decoded in slot order and
/// appended to the kind's arena, and the returned handles expose them with
/// contiguous zero-based indices. An absent location yields no records and
/// no handles.
pub fn read_stagedef_list<T: StageDefParsable>(
    buf: &Vec<u8>,
    co: FileOffset,
    e: Endianness,
    arena: &mut Vec<T>,
) -> (r: Vec<GlobalStagedefObject>)
    requires
        co matches FileOffset::CountOffset(_c, o) ==> o <= u32::MAX as u64,
    ensures
        final(arena)@ == old(arena)@ + spec_list_records::<T>(buf@, co, e),
        r@ == spec_fresh_handles(
            old(arena)@.len() as int,
            spec_list_records::<T>(buf@, co, e).len() as int,
        ),
{
    let ghost base = old(arena)@.len() as int;
    let mut out: Vec<GlobalStagedefObject> = Vec::new();
    match co {
        FileOffset::CountOffset(c, o) => {
            proof {
                T::lemma_size_bounds();
            }
            let size = T::get_size();
            let mut i: u32 = 0;
            let mut cur: u64 = o;
            while i < c
                invariant
                    i <= c,
                    o <= u32::MAX as u64,
                    0 < T::size_spec() <= 0x1000,
                    size as int == T::size_spec(),
                    cur as int == o + i * T::size_spec(),
                    arena@ == old(arena)@ + decoded_list::<T>(buf@, o as int, i as int, e),
                    out@ == spec_fresh_handles(
                        base,
                        decoded_list::<T>(buf@, o as int, i as int, e).len() as int,
                    ),
                    base == old(arena)@.len(),
                decreases c - i,
            {
                proof {
                    lemma_decoded_list_len::<T>(buf@, o as int, i as int, e);
                }
                match T::try_from_bytes(buf, cur, e) {
                    Some(t) => {
                        let slot = arena.len();
                        arena.push(t);
                        let idx = out.len();
                        out.push(GlobalStagedefObject { object: slot, index: idx as u32 });
                    },
                    None => {},
                }
                proof {
                    assert((i + 1) * T::size_spec() == i * T::size_spec() + T::size_spec())
                        by (nonlinear_arith);
                    assert(i * T::size_spec() <= 0xFFFF_FFFF * 0x1000int) by (nonlinear_arith)
                        requires
                            0 <= i <= 0xFFFF_FFFFu32,
                            0 < T::size_spec() <= 0x1000,
                    ;
                    assert(decoded_list::<T>(buf@, o as int, i + 1 as int, e)
                        == match T::decode_spec(buf@, o + (i as int) * T::size_spec(), e) {
                        Some(t) => decoded_list::<T>(buf@, o as int, i as int, e).push(t),
                        None => decoded_list::<T>(buf@, o as int, i as int, e),
                    });
                    assert(out@ =~= spec_fresh_handles(
                        base,
                        decoded_list::<T>(buf@, o as int, i + 1 as int, e).len() as int,
                    ));
                }
                i = i + 1;
                cur = cur + size as u64;
            }
            out
        },
        _ => {
            proof {
                assert(arena@ =~= old(arena)@ + Seq::<T>::empty());
                assert(out@ =~= spec_fresh_handles(base, 0));
            }
            out
        },
    }
}

/// Whether a local list whose first element sits at absolute offset `lo`
/// falls inside the byte extent of the global list described by `gco`, for
/// elements of the given size. Positional containment is the format's only
/// discriminant between an aliased slice and a private list.
pub open spec fn spec_alias_case(gco: FileOffset, lo: int, size: int) -> bool {
    match gco {
        FileOffset::CountOffset(gc, go) => go <= lo && lo < go + gc * size,
        _ => false,
    }
}

/// The global element index implied by a local list offset inside the
/// global byte extent: the byte distance divided by the element size,
/// truncating when the file is malformed and the distance does not divide
/// evenly.
pub open spec fn spec_alias_start(gco: FileOffset, lo: int, size: int) -> int {
    match gco {
        FileOffset::CountOffset(_gc, go) => (lo - go) / size,
        _ => 0,
    }
}

/// The aliased slice of a global handle list: up to `m` handles starting at
/// global position `start`, each sharing its record slot with the global
/// entry and re-numbered with local indices `0..`.
pub open spec fn spec_alias_refs(
    globals: Seq<GlobalStagedefObject>,
    start: int,
    m: int,
) -> Seq<GlobalStagedefObject> {
    let avail = if 0 <= start && start <= globals.len() {
        globals.len() - start
    } else {
        0
    };
    let n = if m <= avail {
        if m >= 0 {
            m
        } else {
            0
        }
    } else {
        avail
    };
    Seq::new(
        n as nat,
        |k: int| GlobalStagedefObject { object: globals[start + k].object, index: k as u32 },
    )
}

/// Builds the aliased slice of `globals` described by `spec_alias_refs`.
fn alias_refs(globals: &Vec<GlobalStagedefObject>, start: u64, m: u32) -> (r: Vec<
    GlobalStagedefObject,
>)
    requires
        start <= u32::MAX as u64,
    ensures
        r@ == spec_alias_refs(globals@, start as int, m as int),
{
    let mut out: Vec<GlobalStagedefObject> = Vec::new();
    let ghost n = spec_alias_refs(globals@, start as int, m as int).len() as int;
    let mut k: u32 = 0;
    while k < m && start + (k as u64) < globals.len() as u64
        invariant
            start <= u32::MAX as u64,
            k <= m,
            k <= n,
            n == spec_alias_refs(globals@, start as int, m as int).len(),
            out@.len() == k as int,
            forall|j: int|
                0 <= j < k ==> out@[j] == (GlobalStagedefObject {
                    object: globals@[start + j].object,
                    index: j as u32,
                }),
        decreases m - k,
    {
        let g = globals[(start + (k as u64)) as usize];
        out.push(GlobalStagedefObject { object: g.object, index: k });
        k = k + 1;
    }
    proof {
        assert(out@ =~= spec_alias_refs(globals@, start as int, m as int));
    }
    out
}

impl StageDefReader {
    /// Returns the intersection between a local and a global stagedef
    /// object list, or `None` if the local list lies outside the global
    /// byte extent (or no global list exists) and must be decoded
    /// independently.
    pub fn get_global_objs_from_local_list<T: StageDefParsable>(
        local_count: u32,
        local_offset: u64,
        global_co: FileOffset,
        global_obj_list: &Vec<GlobalStagedefObject>,
    ) -> (r: Option<Vec<GlobalStagedefObject>>)
        requires
            local_offset <= u32::MAX as u64,
        ensures
            r is Some <==> spec_alias_case(global_co, local_offset as int, T::size_spec()),
            r matches Some(v) ==> v@ == spec_alias_refs(
                global_obj_list@,
                spec_alias_start(global_co, local_offset as int, T::size_spec()),
                local_count as int,
            ),
    {
        proof {
            T::lemma_size_bounds();
        }
        let size = T::get_size();
        match global_co {
            FileOffset::CountOffset(gc, go) => {
                match try_get_offset_difference(local_offset, go) {
                    Some(diff) => {
                        proof {
                            assert((gc as int) * (size as int) <= 0xFFFF_FFFF * 0x1000int)
                                by (nonlinear_arith)
                                requires
                                    0 <= gc <= 0xFFFF_FFFFu32,
                                    0 < size <= 0x1000,
                            ;
                        }
                        let global_size: u64 = (gc as u64) * (size as u64);
                        if diff < global_size {
                            let start = diff / (size as u64);
                            proof {
                                assert(start <= diff) by (nonlinear_arith)
                                    requires
                                        start == diff as int / size as int,
                                        0 <= diff,
                                        1 <= size,
                                ;
                            }
                            Some(alias_refs(global_obj_list, start, local_count))
                        } else {
                            None
                        }
                    },
                    None => None,
                }
            },
            _ => None,
        }
    }
}

/// The handle list a collision-header local field yields, over the already
/// decoded global handle list of the kind and the arena length before the
/// read: an aliased slice when the local offset falls inside the global
/// byte extent, fresh handles to privately decoded records otherwise, and
/// the empty list when the field is absent or unreadable.
pub open spec fn spec_local_refs<T: StageDefParsable>(
    b: Seq<u8>,
    e: Endianness,
    field_off: int,
    gco: FileOffset,
    globals: Seq<GlobalStagedefObject>,
    arena_len: int,
) -> Seq<GlobalStagedefObject> {
    match spec_read_count_offset(b, field_off, e) {
        Some(FileOffset::CountOffset(m, lo)) => if spec_alias_case(
            gco,
            lo as int,
            T::size_spec(),
        ) {
            spec_alias_refs(
                globals,
                spec_alias_start(gco, lo as int, T::size_spec()),
                m as int,
            )
        } else {
            spec_fresh_handles(
                arena_len,
                decoded_list::<T>(b, lo as int, m as int, e).len() as int,
            )
        },
        _ => Seq::<GlobalStagedefObject>::empty(),
    }
}

/// The records a collision-header local field appends to the kind's arena:
/// the privately decoded list in the fallback case, nothing in the aliased
/// and absent cases.
pub open spec fn spec_local_new<T: StageDefParsable>(
    b: Seq<u8>,
    e: Endianness,
    field_off: int,
    gco: FileOffset,
) -> Seq<T> {
    match spec_read_count_offset(b, field_off, e) {
        Some(FileOffset::CountOffset(m, lo)) => if spec_alias_case(
            gco,
            lo as int,
            T::size_spec(),
        ) {
            Seq::<T>::empty()
        } else {
            decoded_list::<T>(b, lo as int, m as int, e)
        },
        _ => Seq::<T>::empty(),
    }
}

/// Reads one local object list of a collision header, whose count/offset
/// pair sits at `field_off`.
///
/// The decision between the aliased slice and an independent decode is the
/// positional containment test of [`spec_alias_case`]; the returned handles
/// and the arena growth are exactly [`spec_local_refs`] and
/// [`spec_local_new`].
pub fn read_local_object_list<T: StageDefParsable>(
    buf: &Vec<u8>,
    e: Endianness,
    field_off: u64,
    global_co: FileOffset,
    global_list: &Vec<GlobalStagedefObject>,
    arena: &mut Vec<T>,
) -> (r: Vec<GlobalStagedefObject>)
    ensures
        r@ == spec_local_refs::<T>(
            buf@,
            e,
            field_off as int,
            global_co,
            global_list@,
            old(arena)@.len() as int,
        ),
        final(arena)@ == old(arena)@ + spec_local_new::<T>(buf@, e, field_off as int, global_co),
{
    match read_count_offset(buf, field_off, e) {
        Some(FileOffset::CountOffset(m, lo)) => {
            match StageDefReader::get_global_objs_from_local_list::<T>(m, lo, global_co, global_list) {
                Some(objs) => {
                    proof {
                        assert(arena@ =~= old(arena)@ + Seq::<T>::empty());
                    }
                    objs
                },
                None => read_stagedef_list::<T>(buf, FileOffset::CountOffset(m, lo), e, arena),
            }
        },
        _ => {
            proof {
                assert(arena@ =~= old(arena)@ + Seq::<T>::empty());
            }
            Vec::new()
        },
    }
}

/// The byte address a location seeks to: `None` only for an absent
/// location; a count/offset pair seeks to its offset.
pub open spec fn spec_try_seek(fo: FileOffset) -> Option<u64> {
    match fo {
        FileOffset::Unused => None,
        FileOffset::OffsetOnly(o) => Some(o),
        FileOffset::CountOffset(_c, o) => Some(o),
    }
}

/// Attempts to resolve a location to the byte address it refers to.
pub fn try_seek(fo: FileOffset) -> (r: Option<u64>)
    ensures
        r == spec_try_seek(fo),
{
    match fo {
        FileOffset::Unused => None,
        FileOffset::OffsetOnly(o) => Some(o),
        FileOffset::CountOffset(_c, o) => Some(o),
    }
}

/// A singular 32-bit field read through a location: zero when the location
/// is absent or the read misses the buffer.
pub open spec fn spec_u32_field(b: Seq<u8>, fo: FileOffset, e: Endianness) -> u32 {
    match spec_try_seek(fo) {
        Some(o) => spec_u32_or_zero(b, o as int, e),
        None => 0,
    }
}

/// A singular vector field read through a location: the zero vector when
/// the location is absent or the read misses the buffer.
pub open spec fn spec_vec3_field(b: Seq<u8>, fo: FileOffset, e: Endianness) -> Vector3 {
    match spec_try_seek(fo) {
        Some(o) => spec_vec3_or_zero(b, o as int, e),
        None => Vector3 { x: 0, y: 0, z: 0 },
    }
}

/// The rotation vector that follows a start-position record: read twelve
/// bytes after the position the location seeks to.
pub open spec fn spec_vec3_short_field_after(
    b: Seq<u8>,
    fo: FileOffset,
    e: Endianness,
    delta: int,
) -> ShortVector3 {
    match spec_try_seek(fo) {
        Some(o) => spec_vec3_short_or_zero(b, o as int + delta, e),
        None => ShortVector3 { x: 0, y: 0, z: 0 },
    }
}

/// The collision header format for stagedef files.
///
/// The fields are absolute locations, resolved by applying the schema's
/// relative deltas to the known start address of one collision header.
#[derive(Clone, Copy, Debug, PartialEq, Eq, Structural)]
pub struct StageDefCollisionHeaderFormat {
    pub center_of_rotation_offset: FileOffset,
    pub initial_rotation_offset: FileOffset,
    pub animation_type_offset: FileOffset,
    pub animation_header_ptr_offset: FileOffset,
    pub conveyor_vector_offset: FileOffset,
    pub collision_triangle_list_offset: FileOffset,
    pub collision_grid_triangle_list_offset: FileOffset,
    pub collision_grid_start_x_offset: FileOffset,
    pub collision_grid_start_z_offset: FileOffset,
    pub collision_grid_step_x_offset: FileOffset,
    pub collision_grid_step_z_offset: FileOffset,
    pub collision_grid_step_x_count_offset: FileOffset,
    pub collision_grid_step_z_count_offset: FileOffset,
    pub goal_list_offset: FileOffset,
    pub bumper_list_offset: FileOffset,
    pub jamabar_list_offset: FileOffset,
    pub banana_list_offset: FileOffset,
    pub cone_col_list_offset: FileOffset,
    pub sphere_col_list_offset: FileOffset,
    pub cyl_col_list_offset: FileOffset,
    pub fallout_vol_list_offset: FileOffset,
    pub reflective_model_list_offset: FileOffset,
    pub model_instance_list_offset: FileOffset,
    pub model_ptr_b_list_offset: FileOffset,
    pub unk0x9c_offset: FileOffset,
    pub unk0xa0_offset: FileOffset,
    pub animation_id_offset: FileOffset,
    pub unk0xa6_offset: FileOffset,
    pub switch_list_offset: FileOffset,
    pub unk0xb0_offset: FileOffset,
    pub mystery_5_offset: FileOffset,
    pub seesaw_sensitivity_offset: FileOffset,
    pub seesaw_friction_offset: FileOffset,
    pub seesaw_spring_offset: FileOffset,
    pub wormhole_list_offset: FileOffset,
    pub animation_state_init_offset: FileOffset,
    pub unk0xd0_offset: FileOffset,
    pub animation_loop_point_offset: FileOffset,
    pub texture_scroll_ptr_offset: FileOffset,
}

/// Byte stride of the collision header array: consecutive headers start
/// this many bytes apart.
pub const COLLISION_HEADER_SIZE: u32 = 0x49C;

/// Largest relative delta of the collision header schema; the resolved
/// locations of a header starting at `h` lie within `h + 0xD8`.
pub const COLLISION_HEADER_MAX_DELTA: u64 = 0xD8;

/// The collision header schema resolved against a header start address:
/// every relative delta applied to `h`.
pub open spec fn spec_collision_header_format(h: u64) -> StageDefCollisionHeaderFormat {
    StageDefCollisionHeaderFormat {
        center_of_rotation_offset: FileOffset::OffsetOnly((h + 0x0) as u64),
        initial_rotation_offset: FileOffset::OffsetOnly((h + 0xC) as u64),
        animation_type_offset: FileOffset::OffsetOnly((h + 0x12) as u64),
        animation_header_ptr_offset: FileOffset::OffsetOnly((h + 0x14) as u64),
        conveyor_vector_offset: FileOffset::OffsetOnly((h + 0x18) as u64),
        collision_triangle_list_offset: FileOffset::OffsetOnly((h + 0x24) as u64),
        collision_grid_triangle_list_offset: FileOffset::OffsetOnly((h + 0x28) as u64),
        collision_grid_start_x_offset: FileOffset::OffsetOnly((h + 0x2C) as u64),
        collision_grid_start_z_offset: FileOffset::OffsetOnly((h + 0x30) as u64),
        collision_grid_step_x_offset: FileOffset::OffsetOnly((h + 0x34) as u64),
        collision_grid_step_z_offset: FileOffset::OffsetOnly((h + 0x38) as u64),
        collision_grid_step_x_count_offset: FileOffset::OffsetOnly((h + 0x3C) as u64),
        collision_grid_step_z_count_offset: FileOffset::OffsetOnly((h + 0x40) as u64),
        goal_list_offset: FileOffset::OffsetOnly((h + 0x44) as u64),
        bumper_list_offset: FileOffset::OffsetOnly((h + 0x4C) as u64),
        jamabar_list_offset: FileOffset::OffsetOnly((h + 0x54) as u64),
        banana_list_offset: FileOffset::OffsetOnly((h + 0x5C) as u64),
        cone_col_list_offset: FileOffset::OffsetOnly((h + 0x64) as u64),
        sphere_col_list_offset: FileOffset::OffsetOnly((h + 0x6C) as u64),
        cyl_col_list_offset: FileOffset::OffsetOnly((h + 0x74) as u64),
        fallout_vol_list_offset: FileOffset::OffsetOnly((h + 0x7C) as u64),
        reflective_model_list_offset: FileOffset::OffsetOnly((h + 0x84) as u64),
        model_instance_list_offset: FileOffset::OffsetOnly((h + 0x8C) as u64),
        model_ptr_b_list_offset: FileOffset::OffsetOnly((h + 0x94) as u64),
        unk0x9c_offset: FileOffset::OffsetOnly((h + 0x9C) as u64),
        unk0xa0_offset: FileOffset::OffsetOnly((h + 0xA0) as u64),
        animation_id_offset: FileOffset::OffsetOnly((h + 0xA4) as u64),
        unk0xa6_offset: FileOffset::OffsetOnly((h + 0xA6) as u64),
        switch_list_offset: FileOffset::OffsetOnly((h + 0xA8) as u64),
        unk0xb0_offset: FileOffset::OffsetOnly((h + 0xB0) as u64),
        mystery_5_offset: FileOffset::OffsetOnly((h + 0xB4) as u64),
        seesaw_sensitivity_offset: FileOffset::OffsetOnly((h + 0xB8) as u64),
        seesaw_friction_offset: FileOffset::OffsetOnly((h + 0xBC) as u64),
        seesaw_spring_offset: FileOffset::OffsetOnly((h + 0xC0) as u64),
        wormhole_list_offset: FileOffset::OffsetOnly((h + 0xC4) as u64),
        animation_state_init_offset: FileOffset::OffsetOnly((h + 0xCC) as u64),
        unk0xd0_offset: FileOffset::OffsetOnly((h + 0xD0) as u64),
        animation_loop_point_offset: FileOffset::OffsetOnly((h + 0xD4) as u64),
        texture_scroll_ptr_offset: FileOffset::OffsetOnly((h + 0xD8) as u64),
    }
}

impl StageDefCollisionHeaderFormat {
    /// Resolves the collision header schema against the header start
    /// address. A single schema is populated, so every supported variant
    /// resolves to the same relative layout.
    pub fn new(game: Game, header_start: u64) -> (r: Self)
        requires
            header_start + COLLISION_HEADER_MAX_DELTA <= u64::MAX,
        ensures
            r == spec_collision_header_format(header_start),
    {
        match game {
            Game::SMB1 | Game::SMB2 | Game::SMBDX => {},
        }
        StageDefCollisionHeaderFormat {
            center_of_rotation_offset: FileOffset::OffsetOnly(header_start + 0x0),
            initial_rotation_offset: FileOffset::OffsetOnly(header_start + 0xC),
            animation_type_offset: FileOffset::OffsetOnly(header_start + 0x12),
            animation_header_ptr_offset: FileOffset::OffsetOnly(header_start + 0x14),
            conveyor_vector_offset: FileOffset::OffsetOnly(header_start + 0x18),
            collision_triangle_list_offset: FileOffset::OffsetOnly(header_start + 0x24),
            collision_grid_triangle_list_offset: FileOffset::OffsetOnly(header_start + 0x28),
            collision_grid_start_x_offset: FileOffset::OffsetOnly(header_start + 0x2C),
            collision_grid_start_z_offset: FileOffset::OffsetOnly(header_start + 0x30),
            collision_grid_step_x_offset: FileOffset::OffsetOnly(header_start + 0x34),
            collision_grid_step_z_offset: FileOffset::OffsetOnly(header_start + 0x38),
            collision_grid_step_x_count_offset: FileOffset::OffsetOnly(header_start + 0x3C),
            collision_grid_step_z_count_offset: FileOffset::OffsetOnly(header_start + 0x40),
            goal_list_offset: FileOffset::OffsetOnly(header_start + 0x44),
            bumper_list_offset: FileOffset::OffsetOnly(header_start + 0x4C),
            jamabar_list_offset: FileOffset::OffsetOnly(header_start + 0x54),
            banana_list_offset: FileOffset::OffsetOnly(header_start + 0x5C),
            cone_col_list_offset: FileOffset::OffsetOnly(header_start + 0x64),
            sphere_col_list_offset: FileOffset::OffsetOnly(header_start + 0x6C),
            cyl_col_list_offset: FileOffset::OffsetOnly(header_start + 0x74),
            fallout_vol_list_offset: FileOffset::OffsetOnly(header_start + 0x7C),
            reflective_model_list_offset: FileOffset::OffsetOnly(header_start + 0x84),
            model_instance_list_offset: FileOffset::OffsetOnly(header_start + 0x8C),
            model_ptr_b_list_offset: FileOffset::OffsetOnly(header_start + 0x94),
            unk0x9c_offset: FileOffset::OffsetOnly(header_start + 0x9C),
            unk0xa0_offset: FileOffset::OffsetOnly(header_start + 0xA0),
            animation_id_offset: FileOffset::OffsetOnly(header_start + 0xA4),
            unk0xa6_offset: FileOffset::OffsetOnly(header_start + 0xA6),
            switch_list_offset: FileOffset::OffsetOnly(header_start + 0xA8),
            unk0xb0_offset: FileOffset::OffsetOnly(header_start + 0xB0),
            mystery_5_offset: FileOffset::OffsetOnly(header_start + 0xB4),
            seesaw_sensitivity_offset: FileOffset::OffsetOnly(header_start + 0xB8),
            seesaw_friction_offset: FileOffset::OffsetOnly(header_start + 0xBC),
            seesaw_spring_offset: FileOffset::OffsetOnly(header_start + 0xC0),
            wormhole_list_offset: FileOffset::OffsetOnly(header_start + 0xC4),
            animation_state_init_offset: FileOffset::OffsetOnly(header_start + 0xCC),
            unk0xd0_offset: FileOffset::OffsetOnly(header_start + 0xD0),
            animation_loop_point_offset: FileOffset::OffsetOnly(header_start + 0xD4),
            texture_scroll_ptr_offset: FileOffset::OffsetOnly(header_start + 0xD8),
        }
    }
}

/// The collision header decoded at start address `h`, against the resolved
/// file header and the state of the stage graph before this header: its
/// singular fields read at their relative deltas, each local object list
/// reconciled against the kind's global list, and the background model list
/// decoded afresh from its global location.
pub open spec fn spec_collision_header(
    b: Seq<u8>,
    e: Endianness,
    fh: StageDefFileHeaderFormat,
    sdv: StageDefView,
    h: int,
) -> CollisionHeaderView {
    CollisionHeaderView {
        center_of_rotation_position: spec_vec3_or_zero(b, h, e),
        conveyor_vector: spec_vec3_or_zero(b, h + 0x18, e),
        goals: spec_local_refs::<Goal>(
            b,
            e,
            h + 0x44,
            fh.goal_list_offset,
            sdv.goals,
            sdv.goal_arena.len() as int,
        ),
        bumpers: spec_local_refs::<Bumper>(
            b,
            e,
            h + 0x4C,
            fh.bumper_list_offset,
            sdv.bumpers,
            sdv.bumper_arena.len() as int,
        ),
        jamabars: spec_local_refs::<Jamabar>(
            b,
            e,
            h + 0x54,
            fh.jamabar_list_offset,
            sdv.jamabars,
            sdv.jamabar_arena.len() as int,
        ),
        bananas: spec_local_refs::<Banana>(
            b,
            e,
            h + 0x5C,
            fh.banana_list_offset,
            sdv.bananas,
            sdv.banana_arena.len() as int,
        ),
        cone_collision_objects: spec_local_refs::<ConeCollisionObject>(
            b,
            e,
            h + 0x64,
            fh.cone_col_list_offset,
            sdv.cone_collision_objects,
            sdv.cone_collision_arena.len() as int,
        ),
        sphere_collision_objects: spec_local_refs::<SphereCollisionObject>(
            b,
            e,
            h + 0x6C,
            fh.sphere_col_list_offset,
            sdv.sphere_collision_objects,
            sdv.sphere_collision_arena.len() as int,
        ),
        cylinder_collision_objects: spec_local_refs::<CylinderCollisionObject>(
            b,
            e,
            h + 0x74,
            fh.cyl_col_list_offset,
            sdv.cylinder_collision_objects,
            sdv.cylinder_collision_arena.len() as int,
        ),
        fallout_volumes: spec_local_refs::<FalloutVolume>(
            b,
            e,
            h + 0x7C,
            fh.fallout_vol_list_offset,
            sdv.fallout_volumes,
            sdv.fallout_volume_arena.len() as int,
        ),
        background_models: spec_fresh_handles(
            sdv.background_model_arena.len() as int,
            spec_list_records::<BackgroundModel>(b, fh.bg_model_list_offset, e).len() as int,
        ),
    }
}

/// One step of the collision-header pass: the stage graph after reading
/// the header at `h` — its arenas extended by the privately decoded lists
/// and the new header appended.
pub open spec fn spec_header_step(
    b: Seq<u8>,
    e: Endianness,
    fh: StageDefFileHeaderFormat,
    sdv: StageDefView,
    h: int,
) -> StageDefView {
    StageDefView {
        collision_headers: sdv.collision_headers.push(spec_collision_header(b, e, fh, sdv, h)),
        goal_arena: sdv.goal_arena + spec_local_new::<Goal>(b, e, h + 0x44, fh.goal_list_offset),
        bumper_arena: sdv.bumper_arena + spec_local_new::<Bumper>(
            b,
            e,
            h + 0x4C,
            fh.bumper_list_offset,
        ),
        jamabar_arena: sdv.jamabar_arena + spec_local_new::<Jamabar>(
            b,
            e,
            h + 0x54,
            fh.jamabar_list_offset,
        ),
        banana_arena: sdv.banana_arena + spec_local_new::<Banana>(
            b,
            e,
            h + 0x5C,
            fh.banana_list_offset,
        ),
        cone_collision_arena: sdv.cone_collision_arena + spec_local_new::<ConeCollisionObject>(
            b,
            e,
            h + 0x64,
            fh.cone_col_list_offset,
        ),
        sphere_collision_arena: sdv.sphere_collision_arena + spec_local_new::<
            SphereCollisionObject,
        >(b, e, h + 0x6C, fh.sphere_col_list_offset),
        cylinder_collision_arena: sdv.cylinder_collision_arena + spec_local_new::<
            CylinderCollisionObject,
        >(b, e, h + 0x74, fh.cyl_col_list_offset),
        fallout_volume_arena: sdv.fallout_volume_arena + spec_local_new::<FalloutVolume>(
            b,
            e,
            h + 0x7C,
            fh.fallout_vol_list_offset,
        ),
        background_model_arena: sdv.background_model_arena + spec_list_records::<BackgroundModel>(
            b,
            fh.bg_model_list_offset,
            e,
        ),
        ..sdv
    }
}

/// Reads the collision header at start address `h` and attaches it to the
/// stage graph: exactly one [`spec_header_step`].
pub fn read_collision_header(
    buf: &Vec<u8>,
    game: Game,
    e: Endianness,
    h: u64,
    fh: &StageDefFileHeaderFormat,
    sd: &mut StageDef,
)
    requires
        h + COLLISION_HEADER_MAX_DELTA <= u64::MAX,
        file_header_bounded(*fh),
    ensures
        final(sd)@ == spec_header_step(buf@, e, *fh, old(sd)@, h as int),
{
    let fmt = StageDefCollisionHeaderFormat::new(game, h);
    let mut ch = CollisionHeader {
        center_of_rotation_position: Vector3 { x: 0, y: 0, z: 0 },
        conveyor_vector: Vector3 { x: 0, y: 0, z: 0 },
        goals: Vec::new(),
        bumpers: Vec::new(),
        jamabars: Vec::new(),
        bananas: Vec::new(),
        cone_collision_objects: Vec::new(),
        sphere_collision_objects: Vec::new(),
        cylinder_collision_objects: Vec::new(),
        fallout_volumes: Vec::new(),
        background_models: Vec::new(),
    };
    match try_seek(fmt.center_of_rotation_offset) {
        Some(o) => {
            ch.center_of_rotation_position = read_vec3_or_zero(buf, o, e);
        },
        None => {},
    }
    match try_seek(fmt.conveyor_vector_offset) {
        Some(o) => {
            ch.conveyor_vector = read_vec3_or_zero(buf, o, e);
        },
        None => {},
    }
    match try_seek(fmt.goal_list_offset) {
        Some(o) => {
            ch.goals = read_local_object_list::<Goal>(
                buf,
                e,
                o,
                fh.goal_list_offset,
                &sd.goals,
                &mut sd.goal_arena,
            );
        },
        None => {},
    }
    match try_seek(fmt.bumper_list_offset) {
        Some(o) => {
            ch.bumpers = read_local_object_list::<Bumper>(
                buf,
                e,
                o,
                fh.bumper_list_offset,
                &sd.bumpers,
                &mut sd.bumper_arena,
            );
        },
        None => {},
    }
    match try_seek(fmt.jamabar_list_offset) {
        Some(o) => {
            ch.jamabars = read_local_object_list::<Jamabar>(
                buf,
                e,
                o,
                fh.jamabar_list_offset,
                &sd.jamabars,
                &mut sd.jamabar_arena,
            );
        },
        None => {},
    }
    match try_seek(fmt.banana_list_offset) {
        Some(o) => {
            ch.bananas = read_local_object_list::<Banana>(
                buf,
                e,
                o,
                fh.banana_list_offset,
                &sd.bananas,
                &mut sd.banana_arena,
            );
        },
        None => {},
    }
    match try_seek(fmt.cone_col_list_offset) {
        Some(o) => {
            ch.cone_collision_objects = read_local_object_list::<ConeCollisionObject>(
                buf,
                e,
                o,
                fh.cone_col_list_offset,
                &sd.cone_collision_objects,
                &mut sd.cone_collision_arena,
            );
        },
        None => {},
    }
    match try_seek(fmt.sphere_col_list_offset) {
        Some(o) => {
            ch.sphere_collision_objects = read_local_object_list::<SphereCollisionObject>(
                buf,
                e,
                o,
                fh.sphere_col_list_offset,
                &sd.sphere_collision_objects,
                &mut sd.sphere_collision_arena,
            );
        },
        None => {},
    }
    match try_seek(fmt.cyl_col_list_offset) {
        Some(o) => {
            ch.cylinder_collision_objects = read_local_object_list::<CylinderCollisionObject>(
                buf,
                e,
                o,
                fh.cyl_col_list_offset,
                &sd.cylinder_collision_objects,
                &mut sd.cylinder_collision_arena,
            );
        },
        None => {},
    }
    match try_seek(fmt.fallout_vol_list_offset) {
        Some(o) => {
            ch.fallout_volumes = read_local_object_list::<FalloutVolume>(
                buf,
                e,
                o,
                fh.fallout_vol_list_offset,
                &sd.fallout_volumes,
                &mut sd.fallout_volume_arena,
            );
        },
        None => {},
    }
    ch.background_models = read_stagedef_list::<BackgroundModel>(
        buf,
        fh.bg_model_list_offset,
        e,
        &mut sd.background_model_arena,
    );
    proof {
        assert(ch@ =~= spec_collision_header(buf@, e, *fh, old(sd)@, h as int));
    }
    sd.collision_headers.push(ch);
    proof {
        assert(sd@ =~= spec_header_step(buf@, e, *fh, old(sd)@, h as int));
    }
}

/// The stage graph after the singular fields and the global object lists
/// have been read, before any collision header: every global list is the
/// identity prefix of its arena, with handles numbered in on-disk order.
pub open spec fn spec_base_stagedef(b: Seq<u8>, e: Endianness) -> StageDefView {
    let fh = spec_file_header(b, e);
    let goal_recs = spec_list_records::<Goal>(b, fh.goal_list_offset, e);
    let bumper_recs = spec_list_records::<Bumper>(b, fh.bumper_list_offset, e);
    let jamabar_recs = spec_list_records::<Jamabar>(b, fh.jamabar_list_offset, e);
    let banana_recs = spec_list_records::<Banana>(b, fh.banana_list_offset, e);
    let cone_recs = spec_list_records::<ConeCollisionObject>(b, fh.cone_col_list_offset, e);
    let sphere_recs = spec_list_records::<SphereCollisionObject>(b, fh.sphere_col_list_offset, e);
    let cyl_recs = spec_list_records::<CylinderCollisionObject>(b, fh.cyl_col_list_offset, e);
    let fallout_recs = spec_list_records::<FalloutVolume>(b, fh.fallout_vol_list_offset, e);
    let bg_recs = spec_list_records::<BackgroundModel>(b, fh.bg_model_list_offset, e);
    StageDefView {
        magic_number_1: spec_u32_field(b, fh.magic_number_1_offset, e),
        magic_number_2: spec_u32_field(b, fh.magic_number_2_offset, e),
        start_position: spec_vec3_field(b, fh.start_position_ptr_offset, e),
        start_rotation: spec_vec3_short_field_after(b, fh.start_position_ptr_offset, e, 12),
        fallout_level: spec_u32_field(b, fh.fallout_position_ptr_offset, e),
        collision_headers: Seq::empty(),
        goals: spec_fresh_handles(0, goal_recs.len() as int),
        bumpers: spec_fresh_handles(0, bumper_recs.len() as int),
        jamabars: spec_fresh_handles(0, jamabar_recs.len() as int),
        bananas: spec_fresh_handles(0, banana_recs.len() as int),
        cone_collision_objects: spec_fresh_handles(0, cone_recs.len() as int),
        sphere_collision_objects: spec_fresh_handles(0, sphere_recs.len() as int),
        cylinder_collision_objects: spec_fresh_handles(0, cyl_recs.len() as int),
        fallout_volumes: spec_fresh_handles(0, fallout_recs.len() as int),
        background_models: spec_fresh_handles(0, bg_recs.len() as int),
        goal_arena: goal_recs,
        bumper_arena: bumper_recs,
        jamabar_arena: jamabar_recs,
        banana_arena: banana_recs,
        cone_collision_arena: cone_recs,
        sphere_collision_arena: sphere_recs,
        cylinder_collision_arena: cyl_recs,
        fallout_volume_arena: fallout_recs,
        background_model_arena: bg_recs,
    }
}

/// The stage graph after the first `i` collision headers of the array
/// starting at byte offset `o` have been read on top of `base`.
pub open spec fn spec_after_headers(
    b: Seq<u8>,
    e: Endianness,
    fh: StageDefFileHeaderFormat,
    base: StageDefView,
    o: int,
    i: int,
) -> StageDefView
    decreases i,
{
    if i <= 0 {
        base
    } else {
        spec_header_step(
            b,
            e,
            fh,
            spec_after_headers(b, e, fh, base, o, i - 1),
            o + (i - 1) * (COLLISION_HEADER_SIZE as int),
        )
    }
}

/// The stage graph a buffer decodes to: the base graph of singular fields
/// and global lists, then every collision header of the array in on-disk
/// order. Meaningful when the buffer covers the fixed file-header region.
pub open spec fn spec_stagedef(b: Seq<u8>, e: Endianness) -> StageDefView {
    let fh = spec_file_header(b, e);
    match fh.collision_header_list_offset {
        FileOffset::CountOffset(c, o) => spec_after_headers(
            b,
            e,
            fh,
            spec_base_stagedef(b, e),
            o as int,
            c as int,
        ),
        _ => spec_base_stagedef(b, e),
    }
}

/// Decodes a whole stagedef buffer.
///
/// Structural failures — an unsupported game variant, or a buffer too short
/// to resolve the file-header schema — return an error and no partial
/// graph; on success the graph is exactly [`spec_stagedef`] of the bytes.
pub fn read_stagedef_from_buffer(buf: &Vec<u8>, game: Game, e: Endianness) -> (r: Result<
    StageDef,
    DecodeError,
>)
    ensures
        match r {
            Ok(sd) => game != Game::SMB1 && buf@.len() >= FILE_HEADER_FIXED_REGION && sd@
                == spec_stagedef(buf@, e) && sd@.wf(),
            Err(DecodeError::UnsupportedVariant) => game == Game::SMB1,
            Err(DecodeError::TruncatedHeader) => game != Game::SMB1 && buf@.len()
                < FILE_HEADER_FIXED_REGION,
        },
{
    let fh = match read_file_header_offsets(buf, game, e) {
        Ok(f) => f,
        Err(er) => {
            return Err(er);
        },
    };
    proof {
        lemma_spec_file_header_bounded(buf@, e);
    }
    let mut sd = StageDef::empty();
    match try_seek(fh.magic_number_1_offset) {
        Some(o) => {
            sd.magic_number_1 = read_u32_or_zero(buf, o, e);
        },
        None => {},
    }
    match try_seek(fh.magic_number_2_offset) {
        Some(o) => {
            sd.magic_number_2 = read_u32_or_zero(buf, o, e);
        },
        None => {},
    }
    match try_seek(fh.start_position_ptr_offset) {
        Some(o) => {
            sd.start_position = read_vec3_or_zero(buf, o, e);
            sd.start_rotation = read_vec3_short_or_zero(buf, o + 12, e);
        },
        None => {},
    }
    match try_seek(fh.fallout_position_ptr_offset) {
        Some(o) => {
            sd.fallout_level = read_u32_or_zero(buf, o, e);
        },
        None => {},
    }
    sd.goals = read_stagedef_list::<Goal>(buf, fh.goal_list_offset, e, &mut sd.goal_arena);
    sd.bumpers = read_stagedef_list::<Bumper>(buf, fh.bumper_list_offset, e, &mut sd.bumper_arena);
    sd.jamabars = read_stagedef_list::<Jamabar>(
        buf,
        fh.jamabar_list_offset,
        e,
        &mut sd.jamabar_arena,
    );
    sd.bananas = read_stagedef_list::<Banana>(buf, fh.banana_list_offset, e, &mut sd.banana_arena);
    sd.cone_collision_objects = read_stagedef_list::<ConeCollisionObject>(
        buf,
        fh.cone_col_list_offset,
        e,
        &mut sd.cone_collision_arena,
    );
    sd.sphere_collision_objects = read_stagedef_list::<SphereCollisionObject>(
        buf,
        fh.sphere_col_list_offset,
        e,
        &mut sd.sphere_collision_arena,
    );
    sd.cylinder_collision_objects = read_stagedef_list::<CylinderCollisionObject>(
        buf,
        fh.cyl_col_list_offset,
        e,
        &mut sd.cylinder_collision_arena,
    );
    sd.fallout_volumes = read_stagedef_list::<FalloutVolume>(
        buf,
        fh.fallout_vol_list_offset,
        e,
        &mut sd.fallout_volume_arena,
    );
    sd.background_models = read_stagedef_list::<BackgroundModel>(
        buf,
        fh.bg_model_list_offset,
        e,
        &mut sd.background_model_arena,
    );
    proof {
        assert(sd@ =~= spec_base_stagedef(buf@, e));
    }
    match fh.collision_header_list_offset {
        FileOffset::CountOffset(c, o) => {
            let mut i: u32 = 0;
            let mut h: u64 = o;
            while i < c
                invariant
                    i <= c,
                    o <= u32::MAX as u64,
                    h as int == o + i * (COLLISION_HEADER_SIZE as int),
                    fh == spec_file_header(buf@, e),
                    fh.collision_header_list_offset == FileOffset::CountOffset(c, o),
                    sd@ == spec_after_headers(
                        buf@,
                        e,
                        fh,
                        spec_base_stagedef(buf@, e),
                        o as int,
                        i as int,
                    ),
                decreases c - i,
            {
                proof {
                    assert(i * (COLLISION_HEADER_SIZE as int) <= 0xFFFF_FFFF * 0x49C)
                        by (nonlinear_arith)
                        requires
                            0 <= i <= 0xFFFF_FFFFu32,
                    ;
                    lemma_spec_file_header_bounded(buf@, e);
                }
                read_collision_header(buf, game, e, h, &fh, &mut sd);
                proof {
                    assert((i + 1) * (COLLISION_HEADER_SIZE as int) == i * (
                    COLLISION_HEADER_SIZE as int) + COLLISION_HEADER_SIZE) by (nonlinear_arith);
                    assert(spec_after_headers(
                        buf@,
                        e,
                        fh,
                        spec_base_stagedef(buf@, e),
                        o as int,
                        i + 1 as int,
                    ) == spec_header_step(
                        buf@,
                        e,
                        fh,
                        spec_after_headers(
                            buf@,
                            e,
                            fh,
                            spec_base_stagedef(buf@, e),
                            o as int,
                            i as int,
                        ),
                        o + (i as int) * (COLLISION_HEADER_SIZE as int),
                    ));
                }
                i = i + 1;
                h = h + COLLISION_HEADER_SIZE as u64;
            }
        },
        _ => {},
    }
    proof {
        broadcast use vstd::std_specs::vec::axiom_spec_len;

        assert(sd.goal_arena.len() == sd.goal_arena@.len());
        assert(sd.bumper_arena.len() == sd.bumper_arena@.len());
        assert(sd.jamabar_arena.len() == sd.jamabar_arena@.len());
        assert(sd.banana_arena.len() == sd.banana_arena@.len());
        assert(sd.cone_collision_arena.len() == sd.cone_collision_arena@.len());
        assert(sd.sphere_collision_arena.len() == sd.sphere_collision_arena@.len());
        assert(sd.cylinder_collision_arena.len() == sd.cylinder_collision_arena@.len());
        assert(sd.fallout_volume_arena.len() == sd.fallout_volume_arena@.len());
        assert(sd.background_model_arena.len() == sd.background_model_arena@.len());
        assert(sd@.arenas_bounded());
        crate::laws::lemma_spec_stagedef_wf(buf@, e);
    }
    Ok(sd)
}

/// Handles reading a stagedef from a byte buffer for a given game variant.
pub struct StageDefReader {
    buffer: Vec<u8>,
    game: Game,
}

impl StageDefReader {
    /// The bytes this reader decodes.
    pub closed spec fn spec_buffer(&self) -> Seq<u8> {
        self.buffer@
    }

    /// The game variant this reader decodes for.
    pub closed spec fn spec_game(&self) -> Game {
        self.game
    }

    pub fn new(buffer: Vec<u8>, game: Game) -> (r: Self)
        ensures
            r.spec_buffer() == buffer@,
            r.spec_game() == game,
    {
        StageDefReader { buffer, game }
    }

    /// Reads a new stagedef from the held buffer in the given byte order.
    pub fn read_stagedef(&self, e: Endianness) -> (r: Result<StageDef, DecodeError>)
        ensures
            match r {
                Ok(sd) => self.spec_game() != Game::SMB1 && self.spec_buffer().len()
                    >= FILE_HEADER_FIXED_REGION && sd@ == spec_stagedef(self.spec_buffer(), e)
                    && sd@.wf(),
                Err(DecodeError::UnsupportedVariant) => self.spec_game() == Game::SMB1,
                Err(DecodeError::TruncatedHeader) => self.spec_game() != Game::SMB1
                    && self.spec_buffer().len() < FILE_HEADER_FIXED_REGION,
            },
    {
        read_stagedef_from_buffer(&self.buffer, self.game, e)
    }
}

/// Decodes a stagedef buffer for the given game variant and byte order:
/// the single entry point of the decoder.
pub fn decode(buffer: &Vec<u8>, game: Game, e: Endianness) -> (r: Result<StageDef, DecodeError>)
    ensures
        match r {
            Ok(sd) => game != Game::SMB1 && buffer@.len() >= FILE_HEADER_FIXED_REGION && sd@
                == spec_stagedef(buffer@, e) && sd@.wf(),
            Err(DecodeError::UnsupportedVariant) => game == Game::SMB1,
            Err(DecodeError::TruncatedHeader) => game != Game::SMB1 && buffer@.len()
                < FILE_HEADER_FIXED_REGION,
        },
{
    read_stagedef_from_buffer(buffer, game, e)
}

} // verus!
