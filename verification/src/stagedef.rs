//! The decoded stage graph.
//!
//! Shared object identity is an arena: every decoded record of a kind lives
//! in that kind's arena on the [`StageDef`] root, and every list — the
//! global list of the kind as well as any collision-header view of it —
//! holds [`GlobalStagedefObject`] handles into the same arena. Two handles
//! with equal `object` slots are views of one record, so a later mutation
//! of the record is seen through both, which is the sharing the on-disk
//! aliasing scheme calls for.

use vstd::prelude::*;

use crate::common::GlobalStagedefObject;
use crate::common::ShortVector3;
use crate::common::StageDefObject;
use crate::common::Vector3;
use crate::objects::BackgroundModel;
use crate::objects::Banana;
use crate::objects::Bumper;
use crate::objects::ConeCollisionObject;
use crate::objects::CylinderCollisionObject;
use crate::objects::FalloutVolume;
use crate::objects::Goal;
use crate::objects::Jamabar;
use crate::objects::SphereCollisionObject;

verus! {

/// A per-region sub-structure exposing its own view of the stage objects.
///
/// Each list holds handles into the arenas of the owning [`StageDef`]:
/// either handles shared with the global list (an aliased slice) or handles
/// to records decoded privately for this header.
#[derive(Debug, PartialEq)]
pub struct CollisionHeader {
    pub center_of_rotation_position: Vector3,
    pub conveyor_vector: Vector3,
    pub goals: Vec<GlobalStagedefObject>,
    pub bumpers: Vec<GlobalStagedefObject>,
    pub jamabars: Vec<GlobalStagedefObject>,
    pub bananas: Vec<GlobalStagedefObject>,
    pub cone_collision_objects: Vec<GlobalStagedefObject>,
    pub sphere_collision_objects: Vec<GlobalStagedefObject>,
    pub cylinder_collision_objects: Vec<GlobalStagedefObject>,
    pub fallout_volumes: Vec<GlobalStagedefObject>,
    pub background_models: Vec<GlobalStagedefObject>,
}

impl StageDefObject for CollisionHeader {
    open spec fn size_spec() -> int {
        0x49C
    }

    fn get_name() -> (r: &'static str) {
        "Collision Header"
    }

    fn get_description() -> (r: &'static str) {
        "A collision header."
    }

    fn get_size() -> (r: u32)
        ensures
            r as int == Self::size_spec(),
    {
        0x49C
    }
}

/// Mathematical view of a [`CollisionHeader`]: the same fields with every
/// list abstracted to a sequence.
#[verifier::ext_equal]
pub struct CollisionHeaderView {
    pub center_of_rotation_position: Vector3,
    pub conveyor_vector: Vector3,
    pub goals: Seq<GlobalStagedefObject>,
    pub bumpers: Seq<GlobalStagedefObject>,
    pub jamabars: Seq<GlobalStagedefObject>,
    pub bananas: Seq<GlobalStagedefObject>,
    pub cone_collision_objects: Seq<GlobalStagedefObject>,
    pub sphere_collision_objects: Seq<GlobalStagedefObject>,
    pub cylinder_collision_objects: Seq<GlobalStagedefObject>,
    pub fallout_volumes: Seq<GlobalStagedefObject>,
    pub background_models: Seq<GlobalStagedefObject>,
}

impl View for CollisionHeader {
    type V = CollisionHeaderView;

    open spec fn view(&self) -> CollisionHeaderView {
        CollisionHeaderView {
            center_of_rotation_position: self.center_of_rotation_position,
            conveyor_vector: self.conveyor_vector,
            goals: self.goals@,
            bumpers: self.bumpers@,
            jamabars: self.jamabars@,
            bananas: self.bananas@,
            cone_collision_objects: self.cone_collision_objects@,
            sphere_collision_objects: self.sphere_collision_objects@,
            cylinder_collision_objects: self.cylinder_collision_objects@,
            fallout_volumes: self.fallout_volumes@,
            background_models: self.background_models@,
        }
    }
}

/// The root of a decoded stagedef: singular header fields, one arena and one
/// global handle list per object kind, and the collision headers.
#[derive(Debug, PartialEq)]
pub struct StageDef {
    /// IEEE-754 bits of the first magic number.
    pub magic_number_1: u32,
    /// IEEE-754 bits of the second magic number.
    pub magic_number_2: u32,
    pub start_position: Vector3,
    pub start_rotation: ShortVector3,
    /// IEEE-754 bits of the fallout height.
    pub fallout_level: u32,
    pub collision_headers: Vec<CollisionHeader>,
    pub goals: Vec<GlobalStagedefObject>,
    pub bumpers: Vec<GlobalStagedefObject>,
    pub jamabars: Vec<GlobalStagedefObject>,
    pub bananas: Vec<GlobalStagedefObject>,
    pub cone_collision_objects: Vec<GlobalStagedefObject>,
    pub sphere_collision_objects: Vec<GlobalStagedefObject>,
    pub cylinder_collision_objects: Vec<GlobalStagedefObject>,
    pub fallout_volumes: Vec<GlobalStagedefObject>,
    pub background_models: Vec<GlobalStagedefObject>,
    /// Arena of every decoded goal record, global list first.
    pub goal_arena: Vec<Goal>,
    pub bumper_arena: Vec<Bumper>,
    pub jamabar_arena: Vec<Jamabar>,
    pub banana_arena: Vec<Banana>,
    pub cone_collision_arena: Vec<ConeCollisionObject>,
    pub sphere_collision_arena: Vec<SphereCollisionObject>,
    pub cylinder_collision_arena: Vec<CylinderCollisionObject>,
    pub fallout_volume_arena: Vec<FalloutVolume>,
    pub background_model_arena: Vec<BackgroundModel>,
}

/// Mathematical view of a [`StageDef`].
#[verifier::ext_equal]
pub struct StageDefView {
    pub magic_number_1: u32,
    pub magic_number_2: u32,
    pub start_position: Vector3,
    pub start_rotation: ShortVector3,
    pub fallout_level: u32,
    pub collision_headers: Seq<CollisionHeaderView>,
    pub goals: Seq<GlobalStagedefObject>,
    pub bumpers: Seq<GlobalStagedefObject>,
    pub jamabars: Seq<GlobalStagedefObject>,
    pub bananas: Seq<GlobalStagedefObject>,
    pub cone_collision_objects: Seq<GlobalStagedefObject>,
    pub sphere_collision_objects: Seq<GlobalStagedefObject>,
    pub cylinder_collision_objects: Seq<GlobalStagedefObject>,
    pub fallout_volumes: Seq<GlobalStagedefObject>,
    pub background_models: Seq<GlobalStagedefObject>,
    pub goal_arena: Seq<Goal>,
    pub bumper_arena: Seq<Bumper>,
    pub jamabar_arena: Seq<Jamabar>,
    pub banana_arena: Seq<Banana>,
    pub cone_collision_arena: Seq<ConeCollisionObject>,
    pub sphere_collision_arena: Seq<SphereCollisionObject>,
    pub cylinder_collision_arena: Seq<CylinderCollisionObject>,
    pub fallout_volume_arena: Seq<FalloutVolume>,
    pub background_model_arena: Seq<BackgroundModel>,
}

impl View for StageDef {
    type V = StageDefView;

    open spec fn view(&self) -> StageDefView {
        StageDefView {
            magic_number_1: self.magic_number_1,
            magic_number_2: self.magic_number_2,
            start_position: self.start_position,
            start_rotation: self.start_rotation,
            fallout_level: self.fallout_level,
            collision_headers: self.collision_headers@.map_values(|c: CollisionHeader| c@),
            goals: self.goals@,
            bumpers: self.bumpers@,
            jamabars: self.jamabars@,
            bananas: self.bananas@,
            cone_collision_objects: self.cone_collision_objects@,
            sphere_collision_objects: self.sphere_collision_objects@,
            cylinder_collision_objects: self.cylinder_collision_objects@,
            fallout_volumes: self.fallout_volumes@,
            background_models: self.background_models@,
            goal_arena: self.goal_arena@,
            bumper_arena: self.bumper_arena@,
            jamabar_arena: self.jamabar_arena@,
            banana_arena: self.banana_arena@,
            cone_collision_arena: self.cone_collision_arena@,
            sphere_collision_arena: self.sphere_collision_arena@,
            cylinder_collision_arena: self.cylinder_collision_arena@,
            fallout_volume_arena: self.fallout_volume_arena@,
            background_model_arena: self.background_model_arena@,
        }
    }
}

/// Every handle of `refs` points into an arena of length `arena_len`.
pub open spec fn refs_wf(refs: Seq<GlobalStagedefObject>, arena_len: int) -> bool {
    forall|i: int| 0 <= i < refs.len() ==> (#[trigger] refs[i]).object < arena_len
}

/// The indices of `refs` are contiguous and zero-based: the handle at list
/// position `i` carries local index `i`.
pub open spec fn refs_indexed(refs: Seq<GlobalStagedefObject>) -> bool {
    forall|i: int| 0 <= i < refs.len() ==> (#[trigger] refs[i]).index == i as u32
}

/// A global handle list is the identity prefix of its arena: position `i`
/// holds the handle of arena slot `i`.
pub open spec fn refs_global(refs: Seq<GlobalStagedefObject>, arena_len: int) -> bool {
    refs.len() <= arena_len && forall|i: int|
        0 <= i < refs.len() ==> (#[trigger] refs[i]) == (GlobalStagedefObject {
            object: i as usize,
            index: i as u32,
        })
}

impl CollisionHeaderView {
    /// Every handle list of the header points into the arenas of `sd` and is
    /// re-numbered from zero.
    pub open spec fn wf_in(self, sd: StageDefView) -> bool {
        &&& refs_wf(self.goals, sd.goal_arena.len() as int)
        &&& refs_wf(self.bumpers, sd.bumper_arena.len() as int)
        &&& refs_wf(self.jamabars, sd.jamabar_arena.len() as int)
        &&& refs_wf(self.bananas, sd.banana_arena.len() as int)
        &&& refs_wf(self.cone_collision_objects, sd.cone_collision_arena.len() as int)
        &&& refs_wf(self.sphere_collision_objects, sd.sphere_collision_arena.len() as int)
        &&& refs_wf(self.cylinder_collision_objects, sd.cylinder_collision_arena.len() as int)
        &&& refs_wf(self.fallout_volumes, sd.fallout_volume_arena.len() as int)
        &&& refs_wf(self.background_models, sd.background_model_arena.len() as int)
        &&& refs_indexed(self.goals)
        &&& refs_indexed(self.bumpers)
        &&& refs_indexed(self.jamabars)
        &&& refs_indexed(self.bananas)
        &&& refs_indexed(self.cone_collision_objects)
        &&& refs_indexed(self.sphere_collision_objects)
        &&& refs_indexed(self.cylinder_collision_objects)
        &&& refs_indexed(self.fallout_volumes)
        &&& refs_indexed(self.background_models)
    }
}

impl StageDefView {
    /// Well-formedness of the whole graph: global lists are identity
    /// prefixes of their arenas, and every collision-header list points into
    /// the arenas with zero-based local indices.
    pub open spec fn wf(self) -> bool {
        &&& refs_global(self.goals, self.goal_arena.len() as int)
        &&& refs_global(self.bumpers, self.bumper_arena.len() as int)
        &&& refs_global(self.jamabars, self.jamabar_arena.len() as int)
        &&& refs_global(self.bananas, self.banana_arena.len() as int)
        &&& refs_global(self.cone_collision_objects, self.cone_collision_arena.len() as int)
        &&& refs_global(self.sphere_collision_objects, self.sphere_collision_arena.len() as int)
        &&& refs_global(
            self.cylinder_collision_objects,
            self.cylinder_collision_arena.len() as int,
        )
        &&& refs_global(self.fallout_volumes, self.fallout_volume_arena.len() as int)
        &&& refs_global(self.background_models, self.background_model_arena.len() as int)
        &&& forall|h: int|
            0 <= h < self.collision_headers.len() ==> (#[trigger] self.collision_headers[h]).wf_in(
                self,
            )
    }

    /// Every arena is small enough to be held by a vector; any graph that
    /// exists as a [`StageDef`] value satisfies this.
    pub open spec fn arenas_bounded(self) -> bool {
        &&& self.goal_arena.len() <= usize::MAX
        &&& self.bumper_arena.len() <= usize::MAX
        &&& self.jamabar_arena.len() <= usize::MAX
        &&& self.banana_arena.len() <= usize::MAX
        &&& self.cone_collision_arena.len() <= usize::MAX
        &&& self.sphere_collision_arena.len() <= usize::MAX
        &&& self.cylinder_collision_arena.len() <= usize::MAX
        &&& self.fallout_volume_arena.len() <= usize::MAX
        &&& self.background_model_arena.len() <= usize::MAX
    }
}

impl StageDef {
    /// An empty stage graph: every singular field zeroed and every list and
    /// arena empty. Field-level misses of the decoder leave fields at these
    /// values.
    pub fn empty() -> (r: StageDef)
        ensures
            r@ == StageDef::spec_empty(),
    {
        let r = StageDef {
            magic_number_1: 0,
            magic_number_2: 0,
            start_position: Vector3 { x: 0, y: 0, z: 0 },
            start_rotation: ShortVector3 { x: 0, y: 0, z: 0 },
            fallout_level: 0,
            collision_headers: Vec::new(),
            goals: Vec::new(),
            bumpers: Vec::new(),
            jamabars: Vec::new(),
            bananas: Vec::new(),
            cone_collision_objects: Vec::new(),
            sphere_collision_objects: Vec::new(),
            cylinder_collision_objects: Vec::new(),
            fallout_volumes: Vec::new(),
            background_models: Vec::new(),
            goal_arena: Vec::new(),
            bumper_arena: Vec::new(),
            jamabar_arena: Vec::new(),
            banana_arena: Vec::new(),
            cone_collision_arena: Vec::new(),
            sphere_collision_arena: Vec::new(),
            cylinder_collision_arena: Vec::new(),
            fallout_volume_arena: Vec::new(),
            background_model_arena: Vec::new(),
        };
        proof {
            assert(r@ =~= StageDef::spec_empty());
        }
        r
    }

    /// The goal record a handle refers to, or `None` for a handle that
    /// does not point into this stage's goal arena.
    pub fn goal(&self, r: &GlobalStagedefObject) -> (g: Option<&Goal>)
        ensures
            match g {
                Some(rec) => r.object < self.goal_arena@.len() && *rec == self.goal_arena@[r.object as int],
                None => r.object >= self.goal_arena@.len(),
            },
    {
        if r.object < self.goal_arena.len() {
            Some(&self.goal_arena[r.object])
        } else {
            None
        }
    }

    /// The bumper record a handle refers to.
    pub fn bumper(&self, r: &GlobalStagedefObject) -> (g: Option<&Bumper>)
        ensures
            match g {
                Some(rec) => r.object < self.bumper_arena@.len() && *rec == self.bumper_arena@[r.object as int],
                None => r.object >= self.bumper_arena@.len(),
            },
    {
        if r.object < self.bumper_arena.len() {
            Some(&self.bumper_arena[r.object])
        } else {
            None
        }
    }

    /// The jamabar record a handle refers to.
    pub fn jamabar(&self, r: &GlobalStagedefObject) -> (g: Option<&Jamabar>)
        ensures
            match g {
                Some(rec) => r.object < self.jamabar_arena@.len() && *rec == self.jamabar_arena@[r.object as int],
                None => r.object >= self.jamabar_arena@.len(),
            },
    {
        if r.object < self.jamabar_arena.len() {
            Some(&self.jamabar_arena[r.object])
        } else {
            None
        }
    }

    /// The banana record a handle refers to.
    pub fn banana(&self, r: &GlobalStagedefObject) -> (g: Option<&Banana>)
        ensures
            match g {
                Some(rec) => r.object < self.banana_arena@.len() && *rec == self.banana_arena@[r.object as int],
                None => r.object >= self.banana_arena@.len(),
            },
    {
        if r.object < self.banana_arena.len() {
            Some(&self.banana_arena[r.object])
        } else {
            None
        }
    }

    /// The cone collision record a handle refers to.
    pub fn cone_collision(&self, r: &GlobalStagedefObject) -> (g: Option<&ConeCollisionObject>)
        ensures
            match g {
                Some(rec) => r.object < self.cone_collision_arena@.len() && *rec == self.cone_collision_arena@[r.object as int],
                None => r.object >= self.cone_collision_arena@.len(),
            },
    {
        if r.object < self.cone_collision_arena.len() {
            Some(&self.cone_collision_arena[r.object])
        } else {
            None
        }
    }

    /// The sphere collision record a handle refers to.
    pub fn sphere_collision(&self, r: &GlobalStagedefObject) -> (g: Option<&SphereCollisionObject>)
        ensures
            match g {
                Some(rec) => r.object < self.sphere_collision_arena@.len() && *rec == self.sphere_collision_arena@[r.object as int],
                None => r.object >= self.sphere_collision_arena@.len(),
            },
    {
        if r.object < self.sphere_collision_arena.len() {
            Some(&self.sphere_collision_arena[r.object])
        } else {
            None
        }
    }

    /// The cylinder collision record a handle refers to.
    pub fn cylinder_collision(&self, r: &GlobalStagedefObject) -> (g: Option<
        &CylinderCollisionObject,
    >)
        ensures
            match g {
                Some(rec) => r.object < self.cylinder_collision_arena@.len() && *rec == self.cylinder_collision_arena@[r.object as int],
                None => r.object >= self.cylinder_collision_arena@.len(),
            },
    {
        if r.object < self.cylinder_collision_arena.len() {
            Some(&self.cylinder_collision_arena[r.object])
        } else {
            None
        }
    }

    /// The fallout volume record a handle refers to.
    pub fn fallout_volume(&self, r: &GlobalStagedefObject) -> (g: Option<&FalloutVolume>)
        ensures
            match g {
                Some(rec) => r.object < self.fallout_volume_arena@.len() && *rec == self.fallout_volume_arena@[r.object as int],
                None => r.object >= self.fallout_volume_arena@.len(),
            },
    {
        if r.object < self.fallout_volume_arena.len() {
            Some(&self.fallout_volume_arena[r.object])
        } else {
            None
        }
    }

    /// The background model record a handle refers to.
    pub fn background_model(&self, r: &GlobalStagedefObject) -> (g: Option<&BackgroundModel>)
        ensures
            match g {
                Some(rec) => r.object < self.background_model_arena@.len() && *rec == self.background_model_arena@[r.object as int],
                None => r.object >= self.background_model_arena@.len(),
            },
    {
        if r.object < self.background_model_arena.len() {
            Some(&self.background_model_arena[r.object])
        } else {
            None
        }
    }

    /// View of the empty stage graph.
    pub open spec fn spec_empty() -> StageDefView {
        StageDefView {
            magic_number_1: 0,
            magic_number_2: 0,
            start_position: Vector3 { x: 0, y: 0, z: 0 },
            start_rotation: ShortVector3 { x: 0, y: 0, z: 0 },
            fallout_level: 0,
            collision_headers: Seq::empty(),
            goals: Seq::empty(),
            bumpers: Seq::empty(),
            jamabars: Seq::empty(),
            bananas: Seq::empty(),
            cone_collision_objects: Seq::empty(),
            sphere_collision_objects: Seq::empty(),
            cylinder_collision_objects: Seq::empty(),
            fallout_volumes: Seq::empty(),
            background_models: Seq::empty(),
            goal_arena: Seq::empty(),
            bumper_arena: Seq::empty(),
            jamabar_arena: Seq::empty(),
            banana_arena: Seq::empty(),
            cone_collision_arena: Seq::empty(),
            sphere_collision_arena: Seq::empty(),
            cylinder_collision_arena: Seq::empty(),
            fallout_volume_arena: Seq::empty(),
            background_model_arena: Seq::empty(),
        }
    }
}

} // verus!
