//! Laws of the decoder, proved once and for all inputs.
//!
//! The aliasing law: a collision-header local list whose offset falls
//! inside the byte extent of the kind's global list exposes the very same
//! record slots as the global list, re-numbered from zero. The fallback
//! law: a local list outside that extent is decoded privately, its handles
//! share no record slot with the global list. The graph invariant: every
//! decoded stage graph is well-formed — global lists are identity prefixes
//! of their arenas and every handle of every list points into its arena
//! with contiguous zero-based indices.

use vstd::prelude::*;

use crate::common::Endianness;
use crate::common::GlobalStagedefObject;
use crate::common::StageDefObject;
use crate::common::StageDefParsable;
use crate::objects::BackgroundModel;
use crate::objects::Banana;
use crate::objects::Bumper;
use crate::objects::ConeCollisionObject;
use crate::objects::CylinderCollisionObject;
use crate::objects::FalloutVolume;
use crate::objects::Goal;
use crate::objects::Jamabar;
use crate::objects::SphereCollisionObject;
use crate::parser::decoded_list;
use crate::parser::spec_after_headers;
use crate::parser::spec_alias_case;
use crate::parser::spec_alias_start;
use crate::parser::spec_base_stagedef;
use crate::parser::spec_collision_header;
use crate::parser::spec_file_header;
use crate::parser::spec_fresh_handles;
use crate::parser::spec_header_step;
use crate::parser::lemma_list_records_len;
use crate::parser::spec_list_records;
use crate::parser::spec_local_new;
use crate::parser::spec_normalize_count_offset;
use crate::parser::spec_local_refs;
use crate::parser::spec_read_count_offset;
use crate::parser::spec_stagedef;
use crate::parser::FileOffset;
use crate::parser::StageDefFileHeaderFormat;
use crate::parser::COLLISION_HEADER_SIZE;
use crate::stagedef::refs_global;
use crate::stagedef::refs_indexed;
use crate::stagedef::refs_wf;
use crate::stagedef::StageDefView;

verus! {

/// Aliasing law: when a collision-header local list falls inside the byte
/// extent of the global list, the local handles share their record slots
/// with the global handles starting at the implied global index, and are
/// re-numbered with local indices starting at zero.
pub proof fn lemma_alias_list_shares_identity<T: StageDefParsable>(
    b: Seq<u8>,
    e: Endianness,
    field_off: int,
    gco: FileOffset,
    globals: Seq<GlobalStagedefObject>,
    arena_len: int,
    m: u32,
    lo: u64,
)
    requires
        spec_read_count_offset(b, field_off, e) == Some(FileOffset::CountOffset(m, lo)),
        spec_alias_case(gco, lo as int, T::size_spec()),
    ensures
        ({
            let refs = spec_local_refs::<T>(b, e, field_off, gco, globals, arena_len);
            let start = spec_alias_start(gco, lo as int, T::size_spec());
            &&& 0 <= start
            &&& refs.len() <= m
            &&& (refs.len() > 0 ==> start + refs.len() <= globals.len())
            &&& (start <= globals.len() ==> refs.len() == (if m as int <= globals.len() - start {
                m as int
            } else {
                globals.len() - start
            }))
            &&& forall|k: int|
                0 <= k < refs.len() ==> (#[trigger] refs[k]).object == globals[start + k].object
                    && refs[k].index == k as u32
        }),
{
    T::lemma_size_bounds();
    let start = spec_alias_start(gco, lo as int, T::size_spec());
    match gco {
        FileOffset::CountOffset(_gc, go) => {
            assert(start == (lo - go) as int / T::size_spec());
            assert(0 <= start) by (nonlinear_arith)
                requires
                    start == (lo - go) as int / T::size_spec(),
                    0 <= (lo - go) as int,
                    0 < T::size_spec(),
            ;
        },
        _ => {},
    }
}

/// Fallback law: when a collision-header local list lies outside the byte
/// extent of the global list (before it, past it, or with no global list at
/// all), the list is decoded independently — one handle per successfully
/// decoded local record, sharing no record slot with any global handle.
pub proof fn lemma_fallback_list_is_private<T: StageDefParsable>(
    b: Seq<u8>,
    e: Endianness,
    field_off: int,
    gco: FileOffset,
    globals: Seq<GlobalStagedefObject>,
    arena_len: int,
    m: u32,
    lo: u64,
)
    requires
        spec_read_count_offset(b, field_off, e) == Some(FileOffset::CountOffset(m, lo)),
        !spec_alias_case(gco, lo as int, T::size_spec()),
        refs_wf(globals, arena_len),
        0 <= arena_len,
        arena_len + spec_local_new::<T>(b, e, field_off, gco).len() <= usize::MAX,
    ensures
        ({
            let refs = spec_local_refs::<T>(b, e, field_off, gco, globals, arena_len);
            let new_records = spec_local_new::<T>(b, e, field_off, gco);
            &&& new_records == decoded_list::<T>(b, lo as int, m as int, e)
            &&& refs.len() == new_records.len()
            &&& refs_indexed(refs)
            &&& forall|k: int, j: int|
                0 <= k < refs.len() && 0 <= j < globals.len() ==> (#[trigger] refs[k]).object != (
                #[trigger] globals[j]).object
        }),
{
    let refs = spec_local_refs::<T>(b, e, field_off, gco, globals, arena_len);
    assert forall|k: int, j: int|
        0 <= k < refs.len() && 0 <= j < globals.len() implies (#[trigger] refs[k]).object != (
    #[trigger] globals[j]).object by {
        assert(refs[k].object == (arena_len + k) as usize);
        assert(arena_len + k <= usize::MAX);
        assert(globals[j].object < arena_len);
    }
}

/// Aliasing law, prefix form: a local list whose offset equals the global
/// list's offset and whose count does not exceed the global list exposes
/// exactly the corresponding prefix of the global list, record slots
/// shared, re-indexed starting at zero.
pub proof fn lemma_alias_prefix_identity<T: StageDefParsable>(
    b: Seq<u8>,
    e: Endianness,
    field_off: int,
    gco: FileOffset,
    globals: Seq<GlobalStagedefObject>,
    arena_len: int,
    m: u32,
    lo: u64,
)
    requires
        spec_read_count_offset(b, field_off, e) == Some(FileOffset::CountOffset(m, lo)),
        spec_alias_case(gco, lo as int, T::size_spec()),
        gco matches FileOffset::CountOffset(_gc, go) && lo == go,
        m as int <= globals.len(),
    ensures
        ({
            let refs = spec_local_refs::<T>(b, e, field_off, gco, globals, arena_len);
            &&& refs.len() == m
            &&& forall|k: int|
                0 <= k < refs.len() ==> (#[trigger] refs[k]).object == globals[k].object
                    && refs[k].index == k as u32
        }),
{
    T::lemma_size_bounds();
    lemma_alias_list_shares_identity::<T>(b, e, field_off, gco, globals, arena_len, m, lo);
    let start = spec_alias_start(gco, lo as int, T::size_spec());
    match gco {
        FileOffset::CountOffset(_gc, go) => {
            assert(start == 0int / T::size_spec());
            assert(start == 0) by (nonlinear_arith)
                requires
                    start == 0int / T::size_spec(),
                    0 < T::size_spec(),
            ;
        },
        _ => {},
    }
}

/// Absence law: a count/offset field whose count or offset is zero denotes
/// an absent section, and an absent section yields the empty record list
/// and the empty handle list — it is not an error.
pub proof fn lemma_absent_section_is_empty<T: StageDefParsable>(
    b: Seq<u8>,
    e: Endianness,
    count: u32,
    offset: u32,
)
    requires
        count == 0 || offset == 0,
    ensures
        spec_normalize_count_offset(count, offset) == FileOffset::Unused,
        spec_list_records::<T>(b, spec_normalize_count_offset(count, offset), e) == Seq::<
            T,
        >::empty(),
        spec_fresh_handles(
            0,
            spec_list_records::<T>(b, spec_normalize_count_offset(count, offset), e).len() as int,
        ) == Seq::<GlobalStagedefObject>::empty(),
{
    assert(spec_fresh_handles(0, 0) =~= Seq::<GlobalStagedefObject>::empty());
}

/// The handles a local field yields stay inside the arena as it stands
/// after the field's own appends, with contiguous zero-based indices.
proof fn lemma_local_refs_wf<T: StageDefParsable>(
    b: Seq<u8>,
    e: Endianness,
    field_off: int,
    gco: FileOffset,
    globals: Seq<GlobalStagedefObject>,
    arena_len: int,
)
    requires
        refs_wf(globals, arena_len),
        0 <= arena_len,
        arena_len + spec_local_new::<T>(b, e, field_off, gco).len() <= usize::MAX,
    ensures
        refs_wf(
            spec_local_refs::<T>(b, e, field_off, gco, globals, arena_len),
            arena_len + spec_local_new::<T>(b, e, field_off, gco).len(),
        ),
        refs_indexed(spec_local_refs::<T>(b, e, field_off, gco, globals, arena_len)),
{
    let refs = spec_local_refs::<T>(b, e, field_off, gco, globals, arena_len);
    let new_len = spec_local_new::<T>(b, e, field_off, gco).len() as int;
    assert forall|i: int| 0 <= i < refs.len() implies (#[trigger] refs[i]).object < arena_len
        + new_len && refs[i].index == i as u32 by {
        match spec_read_count_offset(b, field_off, e) {
            Some(FileOffset::CountOffset(_m, lo)) => {
                if spec_alias_case(gco, lo as int, T::size_spec()) {
                    let start = spec_alias_start(gco, lo as int, T::size_spec());
                    assert(refs[i].object == globals[start + i].object);
                } else {
                    assert(refs[i].object == (arena_len + i) as usize);
                }
            },
            _ => {},
        }
    }
}

/// Fresh handles over a bounded arena are well formed and zero-indexed.
proof fn lemma_fresh_handles_wf(base: int, n: int)
    requires
        0 <= base,
        0 <= n,
        base + n <= usize::MAX,
    ensures
        refs_wf(spec_fresh_handles(base, n), base + n),
        refs_indexed(spec_fresh_handles(base, n)),
        refs_global(spec_fresh_handles(0, n), n),
{
}

/// The base graph — singular fields and global lists, no collision header
/// yet — is well formed.
proof fn lemma_base_wf(b: Seq<u8>, e: Endianness)
    ensures
        spec_base_stagedef(b, e).wf(),
{
    let base = spec_base_stagedef(b, e);
    let fh = spec_file_header(b, e);
    lemma_list_records_len::<Goal>(b, fh.goal_list_offset, e);
    lemma_list_records_len::<Bumper>(b, fh.bumper_list_offset, e);
    lemma_list_records_len::<Jamabar>(b, fh.jamabar_list_offset, e);
    lemma_list_records_len::<Banana>(b, fh.banana_list_offset, e);
    lemma_list_records_len::<ConeCollisionObject>(b, fh.cone_col_list_offset, e);
    lemma_list_records_len::<SphereCollisionObject>(b, fh.sphere_col_list_offset, e);
    lemma_list_records_len::<CylinderCollisionObject>(b, fh.cyl_col_list_offset, e);
    lemma_list_records_len::<FalloutVolume>(b, fh.fallout_vol_list_offset, e);
    lemma_list_records_len::<BackgroundModel>(b, fh.bg_model_list_offset, e);
    lemma_fresh_handles_wf(0, spec_list_records::<Goal>(b, fh.goal_list_offset, e).len() as int);
    lemma_fresh_handles_wf(
        0,
        spec_list_records::<Bumper>(b, fh.bumper_list_offset, e).len() as int,
    );
    lemma_fresh_handles_wf(
        0,
        spec_list_records::<Jamabar>(b, fh.jamabar_list_offset, e).len() as int,
    );
    lemma_fresh_handles_wf(
        0,
        spec_list_records::<Banana>(b, fh.banana_list_offset, e).len() as int,
    );
    lemma_fresh_handles_wf(
        0,
        spec_list_records::<ConeCollisionObject>(b, fh.cone_col_list_offset, e).len() as int,
    );
    lemma_fresh_handles_wf(
        0,
        spec_list_records::<SphereCollisionObject>(b, fh.sphere_col_list_offset, e).len() as int,
    );
    lemma_fresh_handles_wf(
        0,
        spec_list_records::<CylinderCollisionObject>(b, fh.cyl_col_list_offset, e).len() as int,
    );
    lemma_fresh_handles_wf(
        0,
        spec_list_records::<FalloutVolume>(b, fh.fallout_vol_list_offset, e).len() as int,
    );
    lemma_fresh_handles_wf(
        0,
        spec_list_records::<BackgroundModel>(b, fh.bg_model_list_offset, e).len() as int,
    );
    assert(base.collision_headers.len() == 0);
}

/// One collision-header step preserves well-formedness: the arenas only
/// grow, the old headers still point into them, and the new header's lists
/// are exactly the reconciled or privately decoded handle lists.
proof fn lemma_step_wf(
    b: Seq<u8>,
    e: Endianness,
    fh: StageDefFileHeaderFormat,
    sdv: StageDefView,
    h: int,
)
    requires
        sdv.wf(),
        spec_header_step(b, e, fh, sdv, h).arenas_bounded(),
    ensures
        spec_header_step(b, e, fh, sdv, h).wf(),
{
    let next = spec_header_step(b, e, fh, sdv, h);
    let ch = spec_collision_header(b, e, fh, sdv, h);
    lemma_local_refs_wf::<Goal>(
        b,
        e,
        h + 0x44,
        fh.goal_list_offset,
        sdv.goals,
        sdv.goal_arena.len() as int,
    );
    lemma_local_refs_wf::<Bumper>(
        b,
        e,
        h + 0x4C,
        fh.bumper_list_offset,
        sdv.bumpers,
        sdv.bumper_arena.len() as int,
    );
    lemma_local_refs_wf::<Jamabar>(
        b,
        e,
        h + 0x54,
        fh.jamabar_list_offset,
        sdv.jamabars,
        sdv.jamabar_arena.len() as int,
    );
    lemma_local_refs_wf::<Banana>(
        b,
        e,
        h + 0x5C,
        fh.banana_list_offset,
        sdv.bananas,
        sdv.banana_arena.len() as int,
    );
    lemma_local_refs_wf::<ConeCollisionObject>(
        b,
        e,
        h + 0x64,
        fh.cone_col_list_offset,
        sdv.cone_collision_objects,
        sdv.cone_collision_arena.len() as int,
    );
    lemma_local_refs_wf::<SphereCollisionObject>(
        b,
        e,
        h + 0x6C,
        fh.sphere_col_list_offset,
        sdv.sphere_collision_objects,
        sdv.sphere_collision_arena.len() as int,
    );
    lemma_local_refs_wf::<CylinderCollisionObject>(
        b,
        e,
        h + 0x74,
        fh.cyl_col_list_offset,
        sdv.cylinder_collision_objects,
        sdv.cylinder_collision_arena.len() as int,
    );
    lemma_local_refs_wf::<FalloutVolume>(
        b,
        e,
        h + 0x7C,
        fh.fallout_vol_list_offset,
        sdv.fallout_volumes,
        sdv.fallout_volume_arena.len() as int,
    );
    lemma_fresh_handles_wf(
        sdv.background_model_arena.len() as int,
        spec_list_records::<BackgroundModel>(b, fh.bg_model_list_offset, e).len() as int,
    );
    assert(ch.wf_in(next));
    assert forall|i: int|
        0 <= i < next.collision_headers.len() implies (#[trigger] next.collision_headers[i]).wf_in(
        next,
    ) by {
        if i < sdv.collision_headers.len() {
            assert(sdv.collision_headers[i].wf_in(sdv));
            assert(next.collision_headers[i] == sdv.collision_headers[i]);
        } else {
            assert(next.collision_headers[i] == ch);
        }
    }
}

/// Arenas only grow across the collision-header pass.
proof fn lemma_after_headers_monotone(
    b: Seq<u8>,
    e: Endianness,
    fh: StageDefFileHeaderFormat,
    base: StageDefView,
    o: int,
    i: int,
)
    requires
        0 <= i,
    ensures
        ({
            let prev = spec_after_headers(b, e, fh, base, o, i);
            let next = spec_after_headers(b, e, fh, base, o, i + 1);
            &&& prev.goal_arena.len() <= next.goal_arena.len()
            &&& prev.bumper_arena.len() <= next.bumper_arena.len()
            &&& prev.jamabar_arena.len() <= next.jamabar_arena.len()
            &&& prev.banana_arena.len() <= next.banana_arena.len()
            &&& prev.cone_collision_arena.len() <= next.cone_collision_arena.len()
            &&& prev.sphere_collision_arena.len() <= next.sphere_collision_arena.len()
            &&& prev.cylinder_collision_arena.len() <= next.cylinder_collision_arena.len()
            &&& prev.fallout_volume_arena.len() <= next.fallout_volume_arena.len()
            &&& prev.background_model_arena.len() <= next.background_model_arena.len()
        }),
{
}

/// Well-formedness of the graph after any number of collision headers.
proof fn lemma_after_headers_wf(
    b: Seq<u8>,
    e: Endianness,
    fh: StageDefFileHeaderFormat,
    base: StageDefView,
    o: int,
    i: int,
)
    requires
        base.wf(),
        0 <= i,
        spec_after_headers(b, e, fh, base, o, i).arenas_bounded(),
    ensures
        spec_after_headers(b, e, fh, base, o, i).wf(),
    decreases i,
{
    if i > 0 {
        let prev = spec_after_headers(b, e, fh, base, o, i - 1);
        lemma_after_headers_monotone(b, e, fh, base, o, i - 1);
        lemma_after_headers_wf(b, e, fh, base, o, i - 1);
        lemma_step_wf(b, e, fh, prev, o + (i - 1) * (COLLISION_HEADER_SIZE as int));
    }
}

/// The collision-header pass never touches the global handle lists, and
/// each step appends exactly one header.
proof fn lemma_after_headers_globals_fixed(
    b: Seq<u8>,
    e: Endianness,
    fh: StageDefFileHeaderFormat,
    base: StageDefView,
    o: int,
    i: int,
)
    requires
        0 <= i,
    ensures
        ({
            let sdv = spec_after_headers(b, e, fh, base, o, i);
            &&& sdv.goals == base.goals
            &&& sdv.bumpers == base.bumpers
            &&& sdv.jamabars == base.jamabars
            &&& sdv.bananas == base.bananas
            &&& sdv.cone_collision_objects == base.cone_collision_objects
            &&& sdv.sphere_collision_objects == base.sphere_collision_objects
            &&& sdv.cylinder_collision_objects == base.cylinder_collision_objects
            &&& sdv.fallout_volumes == base.fallout_volumes
            &&& sdv.background_models == base.background_models
            &&& sdv.collision_headers.len() == base.collision_headers.len() + i
        }),
    decreases i,
{
    if i > 0 {
        lemma_after_headers_globals_fixed(b, e, fh, base, o, i - 1);
    }
}

/// The header at array position `i` of the finished pass is the header
/// decoded against the graph state after the first `i` headers.
proof fn lemma_after_headers_index(
    b: Seq<u8>,
    e: Endianness,
    fh: StageDefFileHeaderFormat,
    base: StageDefView,
    o: int,
    j: int,
    i: int,
)
    requires
        base.collision_headers.len() == 0,
        0 <= i < j,
    ensures
        spec_after_headers(b, e, fh, base, o, j).collision_headers[i] == spec_collision_header(
            b,
            e,
            fh,
            spec_after_headers(b, e, fh, base, o, i),
            o + i * (COLLISION_HEADER_SIZE as int),
        ),
    decreases j,
{
    lemma_after_headers_globals_fixed(b, e, fh, base, o, j - 1);
    if i < j - 1 {
        lemma_after_headers_index(b, e, fh, base, o, j - 1, i);
    }
}

/// Arenas only grow across the whole pass, not just one step.
proof fn lemma_after_headers_arena_ge(
    b: Seq<u8>,
    e: Endianness,
    fh: StageDefFileHeaderFormat,
    base: StageDefView,
    o: int,
    i: int,
    j: int,
)
    requires
        0 <= i <= j,
    ensures
        ({
            let early = spec_after_headers(b, e, fh, base, o, i);
            let late = spec_after_headers(b, e, fh, base, o, j);
            &&& early.goal_arena.len() <= late.goal_arena.len()
            &&& early.bumper_arena.len() <= late.bumper_arena.len()
            &&& early.jamabar_arena.len() <= late.jamabar_arena.len()
            &&& early.banana_arena.len() <= late.banana_arena.len()
            &&& early.cone_collision_arena.len() <= late.cone_collision_arena.len()
            &&& early.sphere_collision_arena.len() <= late.sphere_collision_arena.len()
            &&& early.cylinder_collision_arena.len() <= late.cylinder_collision_arena.len()
            &&& early.fallout_volume_arena.len() <= late.fallout_volume_arena.len()
            &&& early.background_model_arena.len() <= late.background_model_arena.len()
        }),
    decreases j - i,
{
    if i < j {
        lemma_after_headers_arena_ge(b, e, fh, base, o, i, j - 1);
        lemma_after_headers_monotone(b, e, fh, base, o, j - 1);
    }
}

/// Aliasing law at the stage level: in a decoded graph, a collision header
/// whose local goal list starts where the global goal list starts, with a
/// count within the global list, exposes handles identity-equal to the
/// corresponding prefix of the global goal list, re-indexed from zero.
pub proof fn lemma_stagedef_header_goals_alias_prefix(
    b: Seq<u8>,
    e: Endianness,
    i: int,
    m: u32,
    lo: u64,
)
    requires
        spec_file_header(b, e).collision_header_list_offset matches FileOffset::CountOffset(c, o)
            && 0 <= i < c && spec_read_count_offset(
            b,
            o + i * (COLLISION_HEADER_SIZE as int) + 0x44,
            e,
        ) == Some(FileOffset::CountOffset(m, lo)),
        spec_file_header(b, e).goal_list_offset matches FileOffset::CountOffset(_gc, go) && lo
            == go,
        spec_alias_case(spec_file_header(b, e).goal_list_offset, lo as int, Goal::size_spec()),
        m as int <= spec_stagedef(b, e).goals.len(),
    ensures
        ({
            let sd = spec_stagedef(b, e);
            &&& sd.collision_headers[i].goals.len() == m
            &&& forall|k: int|
                0 <= k < m ==> (#[trigger] sd.collision_headers[i].goals[k]).object
                    == sd.goals[k].object && sd.collision_headers[i].goals[k].index == k as u32
        }),
{
    let fh = spec_file_header(b, e);
    let base = spec_base_stagedef(b, e);
    match fh.collision_header_list_offset {
        FileOffset::CountOffset(c, o) => {
            let h = o + i * (COLLISION_HEADER_SIZE as int);
            lemma_after_headers_index(b, e, fh, base, o as int, c as int, i);
            lemma_after_headers_globals_fixed(b, e, fh, base, o as int, i);
            lemma_after_headers_globals_fixed(b, e, fh, base, o as int, c as int);
            let mid = spec_after_headers(b, e, fh, base, o as int, i);
            lemma_alias_prefix_identity::<Goal>(
                b,
                e,
                h + 0x44,
                fh.goal_list_offset,
                base.goals,
                mid.goal_arena.len() as int,
                m,
                lo,
            );
        },
        _ => {},
    }
}

/// Fallback law at the stage level: in a decoded graph, a collision header
/// whose local goal list lies outside the global goal list's byte extent
/// carries an independently decoded list — its length is the number of
/// successfully decoded local records, and none of its handles is
/// identity-equal to any global goal handle.
#[verifier::rlimit(50)]
pub proof fn lemma_stagedef_header_goals_private(
    b: Seq<u8>,
    e: Endianness,
    i: int,
    m: u32,
    lo: u64,
)
    requires
        spec_file_header(b, e).collision_header_list_offset matches FileOffset::CountOffset(c, o)
            && 0 <= i < c && spec_read_count_offset(
            b,
            o + i * (COLLISION_HEADER_SIZE as int) + 0x44,
            e,
        ) == Some(FileOffset::CountOffset(m, lo)),
        !spec_alias_case(spec_file_header(b, e).goal_list_offset, lo as int, Goal::size_spec()),
        spec_stagedef(b, e).arenas_bounded(),
    ensures
        ({
            let sd = spec_stagedef(b, e);
            &&& sd.collision_headers[i].goals.len() == decoded_list::<Goal>(
                b,
                lo as int,
                m as int,
                e,
            ).len()
            &&& refs_indexed(sd.collision_headers[i].goals)
            &&& forall|k: int, j: int|
                0 <= k < sd.collision_headers[i].goals.len() && 0 <= j < sd.goals.len() ==> (
                #[trigger] sd.collision_headers[i].goals[k]).object != (
                #[trigger] sd.goals[j]).object
        }),
{
    let fh = spec_file_header(b, e);
    let base = spec_base_stagedef(b, e);
    lemma_base_wf(b, e);
    match fh.collision_header_list_offset {
        FileOffset::CountOffset(c, o) => {
            let h = o + i * (COLLISION_HEADER_SIZE as int);
            lemma_after_headers_index(b, e, fh, base, o as int, c as int, i);
            lemma_after_headers_globals_fixed(b, e, fh, base, o as int, i);
            lemma_after_headers_globals_fixed(b, e, fh, base, o as int, c as int);
            let mid = spec_after_headers(b, e, fh, base, o as int, i);
            // the global handles point into the goal arena as it stood before
            // this header, since arenas only grow
            lemma_after_headers_arena_ge(b, e, fh, base, o as int, 0, i);
            assert(refs_wf(base.goals, mid.goal_arena.len() as int));
            // the appended records fit: the arena after this header is no
            // longer than the finished arena, which a vector held
            lemma_after_headers_monotone(b, e, fh, base, o as int, i);
            lemma_after_headers_arena_ge(b, e, fh, base, o as int, i + 1, c as int);
            lemma_fallback_list_is_private::<Goal>(
                b,
                e,
                h + 0x44,
                fh.goal_list_offset,
                base.goals,
                mid.goal_arena.len() as int,
                m,
                lo,
            );
        },
        _ => {},
    }
}

/// Graph invariant: every stage graph a buffer decodes to is well formed —
/// each global list is the identity prefix of its arena, and every handle
/// of every list (global or per collision header) points into the arena of
/// its kind and carries a contiguous zero-based index within its list.
pub proof fn lemma_spec_stagedef_wf(b: Seq<u8>, e: Endianness)
    requires
        spec_stagedef(b, e).arenas_bounded(),
    ensures
        spec_stagedef(b, e).wf(),
{
    let fh = spec_file_header(b, e);
    lemma_base_wf(b, e);
    match fh.collision_header_list_offset {
        FileOffset::CountOffset(c, o) => {
            lemma_after_headers_wf(b, e, fh, spec_base_stagedef(b, e), o as int, c as int);
        },
        _ => {},
    }
}

} // verus!
