//! The collision table: shapes addressed by handle, and the choice of the
//! nearest box that a ray enters.
//!
//! Intersecting a ray with a box is arithmetic on coordinates, which the
//! caller does. For each box it reports the distance at which the ray enters
//! and the distance at which it leaves; the table picks the hit.

use vstd::prelude::*;

use crate::kb_assets::{KbAssetMappings, INVALID_HANDLE_INDEX, LAST_HANDLE_INDEX};
use crate::kb_utils::{CgVec3, KbFloat, MAX_BITS, ZERO_BITS};

verus! {

/// Handle of a collision shape.
#[derive(Clone, Copy, Debug, PartialEq, Eq, Structural, Hash)]
pub struct KbCollisionHandle {
    pub index: u32,
}

impl KbCollisionHandle {
    pub open spec fn valid(&self) -> bool {
        self.index != INVALID_HANDLE_INDEX
    }

    pub fn make_invalid() -> (r: Self)
        ensures
            r.index == INVALID_HANDLE_INDEX,
            !r.valid(),
    {
        KbCollisionHandle { index: INVALID_HANDLE_INDEX }
    }

    pub fn is_valid(&self) -> (r: bool)
        ensures
            r == self.valid(),
    {
        self.index != INVALID_HANDLE_INDEX
    }
}

/// A ball around `position`.
#[derive(Clone, Copy, Debug, PartialEq, Eq, Structural)]
pub struct KbCollisionSphere {
    pub position: CgVec3,
    pub radius: KbFloat,
}

/// An axis-aligned box: its centre, half its size along each axis, and
/// whether it stops what runs into it.
#[derive(Clone, Copy, Debug, PartialEq, Eq, Structural)]
pub struct KbCollisionAABB {
    pub position: CgVec3,
    pub extents: CgVec3,
    pub block: bool,
}

#[derive(Clone, Copy, Debug, PartialEq, Eq, Structural)]
pub enum KbCollisionShape {
    Sphere(KbCollisionSphere),
    AABB(KbCollisionAABB),
}

impl KbCollisionShape {
    /// The same shape at another place.
    pub open spec fn moved_to(self, new_pos: CgVec3) -> KbCollisionShape {
        match self {
            KbCollisionShape::Sphere(s) => KbCollisionShape::Sphere(
                KbCollisionSphere { position: new_pos, radius: s.radius },
            ),
            KbCollisionShape::AABB(b) => KbCollisionShape::AABB(
                KbCollisionAABB { position: new_pos, extents: b.extents, block: b.block },
            ),
        }
    }

    pub open spec fn position(self) -> CgVec3 {
        match self {
            KbCollisionShape::Sphere(s) => s.position,
            KbCollisionShape::AABB(b) => b.position,
        }
    }
}

/// Where a ray meets the box behind `handle`: it enters at distance `enter`
/// and leaves at distance `leave`, both measured along the ray in units of its
/// direction.
#[derive(Clone, Copy, Debug, PartialEq, Eq, Structural)]
pub struct KbRaySpan {
    pub handle: KbCollisionHandle,
    pub enter: KbFloat,
    pub leave: KbFloat,
}

/// What a ray cast found: the distance of the nearest hit, the handle of the
/// box that was hit, and whether that box blocks. Without a hit the distance
/// is the largest finite number, the handle is invalid and `blocks` is `None`.
#[derive(Clone, Copy, Debug, PartialEq, Eq, Structural)]
pub struct KbRayHit {
    pub distance: KbFloat,
    pub handle: Option<KbCollisionHandle>,
    pub blocks: Option<bool>,
}

/// True when `span` is a hit: its handle leads to a box, the ray enters the
/// box in front of its start, does not leave before it enters, and enters
/// nearer than the largest finite distance.
pub open spec fn is_hit(shapes: Map<u32, KbCollisionShape>, span: KbRaySpan) -> bool {
    &&& shapes.contains_key(span.handle.index)
    &&& shapes[span.handle.index] is AABB
    &&& (KbFloat { bits: ZERO_BITS }).less(span.enter)
    &&& span.enter.less_eq(span.leave)
    &&& span.enter.less(KbFloat { bits: MAX_BITS })
}

/// True when the span at `k` is the hit that a cast returns: no hit is
/// nearer, and every hit before it is farther.
pub open spec fn is_nearest_hit(
    shapes: Map<u32, KbCollisionShape>,
    spans: Seq<KbRaySpan>,
    k: int,
) -> bool {
    &&& 0 <= k < spans.len()
    &&& is_hit(shapes, spans[k])
    &&& forall|j: int|
        0 <= j < spans.len() && is_hit(shapes, #[trigger] spans[j]) ==> !spans[j].enter.less(
            spans[k].enter,
        )
    &&& forall|j: int|
        0 <= j < k && is_hit(shapes, #[trigger] spans[j]) ==> spans[k].enter.less(spans[j].enter)
}

/// The result of a cast whose nearest hit is `span`.
pub open spec fn hit_of(shapes: Map<u32, KbCollisionShape>, span: KbRaySpan) -> KbRayHit {
    KbRayHit {
        distance: span.enter,
        handle: Some(span.handle),
        blocks: Some(shapes[span.handle.index]->AABB_0.block),
    }
}

/// The result of a cast that hit nothing.
pub open spec fn no_hit() -> KbRayHit {
    KbRayHit {
        distance: KbFloat { bits: MAX_BITS },
        handle: Some(KbCollisionHandle { index: INVALID_HANDLE_INDEX }),
        blocks: None,
    }
}

/// At most one span is the nearest hit.
pub proof fn lemma_nearest_hit_is_unique(
    shapes: Map<u32, KbCollisionShape>,
    spans: Seq<KbRaySpan>,
    k: int,
    l: int,
)
    requires
        is_nearest_hit(shapes, spans, k),
        is_nearest_hit(shapes, spans, l),
    ensures
        k == l,
{
    if k < l {
        assert(spans[l].enter.less(spans[k].enter));
    } else if l < k {
        assert(spans[k].enter.less(spans[l].enter));
    }
}

/// The shapes that can be run into, each under the handle it was given.
pub struct KbCollisionManager {
    collision_objects: KbAssetMappings<KbCollisionShape>,
}

impl Default for KbCollisionManager {
    /// A table without shapes.
    fn default() -> (r: Self)
        ensures
            r.wf(),
            r.shapes() == Map::<u32, KbCollisionShape>::empty(),
            r.counter() == INVALID_HANDLE_INDEX,
    {
        Self::new()
    }
}

impl KbCollisionManager {
    /// The shape stored under each handle index.
    pub closed spec fn shapes(&self) -> Map<u32, KbCollisionShape> {
        self.collision_objects.assets()
    }

    /// The counter that handles come from; see
    /// [`crate::kb_assets::index_after`].
    pub closed spec fn counter(&self) -> u32 {
        self.collision_objects.counter()
    }

    /// The table is well formed; see
    /// [`KbCollisionManager::lemma_handles_are_valid`] for what that gives.
    pub closed spec fn wf(&self) -> bool {
        &&& self.collision_objects.wf()
        &&& self.collision_objects.names() == Map::<Seq<char>, u32>::empty()
    }

    /// True when the table can hand out another handle: the next index is not
    /// the last one.
    pub open spec fn has_room(&self) -> bool {
        crate::kb_assets::index_after(self.counter()) < LAST_HANDLE_INDEX
    }

    /// Decides [`KbCollisionManager::has_room`].
    pub fn can_add(&self) -> (r: bool)
        ensures
            r == self.has_room(),
    {
        self.collision_objects.can_add()
    }

    /// The shapes of a well-formed table are finitely many, and the handle of
    /// each was handed out: it is valid and below the counter, and a table
    /// whose counter stands at the invalid index is empty.
    pub proof fn lemma_handles_are_valid(&self)
        requires
            self.wf(),
        ensures
            self.shapes().dom().finite(),
            !self.shapes().contains_key(INVALID_HANDLE_INDEX),
            forall|index: u32| #[trigger]
                self.shapes().contains_key(index) ==> self.counter() != INVALID_HANDLE_INDEX
                    && index < self.counter(),
            !self.shapes().contains_key(crate::kb_assets::index_after(self.counter())),
    {
        if self.shapes().contains_key(crate::kb_assets::index_after(self.counter())) {
        }
    }

    pub fn new() -> (r: Self)
        ensures
            r.wf(),
            r.shapes() == Map::<u32, KbCollisionShape>::empty(),
            r.counter() == INVALID_HANDLE_INDEX,
    {
        KbCollisionManager { collision_objects: KbAssetMappings::new() }
    }

    /// Stores a copy of `collision` under a fresh handle, one that no shape
    /// of the table has. The table has room.
    pub fn add_collision(&mut self, collision: &KbCollisionShape) -> (r: KbCollisionHandle)
        requires
            old(self).wf(),
            old(self).has_room(),
        ensures
            final(self).wf(),
            r.index == crate::kb_assets::index_after(old(self).counter()),
            r.valid(),
            !old(self).shapes().contains_key(r.index),
            final(self).shapes().len() == old(self).shapes().len() + 1,
            final(self).counter() == r.index + 1,
            final(self).shapes() == old(self).shapes().insert(r.index, *collision),
    {
        let index = self.collision_objects.add(*collision);
        KbCollisionHandle { index }
    }

    /// Forgets the shape under `handle`, if there is one.
    pub fn remove_collision(&mut self, handle: &KbCollisionHandle)
        requires
            old(self).wf(),
        ensures
            final(self).wf(),
            final(self).counter() == old(self).counter(),
            final(self).shapes() == old(self).shapes().remove(handle.index),
    {
        self.collision_objects.remove(handle.index);
    }

    /// True when a shape is stored under `handle`.
    pub fn has_collision(&self, handle: &KbCollisionHandle) -> (r: bool)
        ensures
            r == self.shapes().contains_key(handle.index),
    {
        self.collision_objects.contains(handle.index)
    }

    /// The shape under `handle`.
    pub fn get_collision(&self, handle: &KbCollisionHandle) -> (r: KbCollisionShape)
        requires
            self.shapes().contains_key(handle.index),
        ensures
            r == self.shapes()[handle.index],
    {
        *self.collision_objects.get(handle.index).unwrap()
    }

    /// Moves the shape under `handle` to `new_pos`; its size and its kind stay.
    pub fn update_collision_position(&mut self, handle: &KbCollisionHandle, new_pos: &CgVec3)
        requires
            old(self).wf(),
            old(self).shapes().contains_key(handle.index),
        ensures
            final(self).wf(),
            final(self).counter() == old(self).counter(),
            final(self).shapes() == old(self).shapes().insert(
                handle.index,
                old(self).shapes()[handle.index].moved_to(*new_pos),
            ),
    {
        let collision = *self.collision_objects.get(handle.index).unwrap();
        let new_collision = match collision {
            KbCollisionShape::Sphere(s) => KbCollisionShape::Sphere(
                KbCollisionSphere { position: *new_pos, radius: s.radius },
            ),
            KbCollisionShape::AABB(b) => KbCollisionShape::AABB(
                KbCollisionAABB { position: *new_pos, extents: b.extents, block: b.block },
            ),
        };
        self.collision_objects.replace(handle.index, new_collision);
    }

    /// The handles of all shapes, each once, in no particular order.
    pub fn handles(&self) -> (r: Vec<KbCollisionHandle>)
        ensures
            r@.len() == self.shapes().len(),
            forall|i: int| 0 <= i < r@.len() ==> self.shapes().contains_key(#[trigger] r@[i].index),
            forall|i: int, j: int| 0 <= i < j < r@.len() ==> r@[i] != r@[j],
            forall|index: u32|
                self.shapes().contains_key(index) ==> r@.contains(KbCollisionHandle { index }),
    {
        let indices = self.collision_objects.indices();
        let mut out: Vec<KbCollisionHandle> = Vec::new();
        let mut i: usize = 0;
        while i < indices.len()
            invariant
                i <= indices.len(),
                out@.len() == i,
                forall|k: int| 0 <= k < i ==> (#[trigger] out@[k]).index == indices@[k],
            decreases indices.len() - i,
        {
            out.push(KbCollisionHandle { index: indices[i] });
            i = i + 1;
        }
        proof {
            assert forall|k: int| 0 <= k < out@.len() implies self.shapes().contains_key(
                #[trigger] out@[k].index,
            ) by {
                assert(indices@.to_set().contains(indices@[k]));
            }
            assert forall|index: u32| self.shapes().contains_key(index) implies out@.contains(
                KbCollisionHandle { index },
            ) by {
                assert(indices@.to_set().contains(index));
                let k = choose|k: int| 0 <= k < indices@.len() && indices@[k] == index;
                assert(out@[k] == KbCollisionHandle { index });
            }
        }
        out
    }

    /// Picks the nearest hit among the boxes that a ray meets. `spans` holds,
    /// in the order in which the boxes were visited, where the ray enters and
    /// leaves each. Of several hits at the same distance the first one wins.
    pub fn cast_ray(&self, spans: &Vec<KbRaySpan>) -> (r: KbRayHit)
        ensures
            (forall|j: int| 0 <= j < spans@.len() ==> !is_hit(self.shapes(), #[trigger] spans@[j]))
                ==> r == no_hit(),
            (exists|j: int| 0 <= j < spans@.len() && is_hit(self.shapes(), #[trigger] spans@[j]))
                ==> exists|k: int|
                is_nearest_hit(self.shapes(), spans@, k) && r == hit_of(
                    self.shapes(),
                    #[trigger] spans@[k],
                ),
            r.handle is Some,
    {
        let mut closest_hit = KbFloat::max_value();
        let mut closest_handle = KbCollisionHandle::make_invalid();
        let mut blocks: Option<bool> = None;
        let ghost mut best: int = -1;
        let mut i: usize = 0;
        while i < spans.len()
            invariant
                i <= spans.len(),
                -1 <= best < i,
                best == -1 ==> {
                    &&& closest_hit == KbFloat { bits: MAX_BITS }
                    &&& closest_handle == KbCollisionHandle { index: INVALID_HANDLE_INDEX }
                    &&& blocks is None
                    &&& forall|j: int|
                        0 <= j < i ==> !is_hit(self.shapes(), #[trigger] spans@[j])
                },
                best >= 0 ==> {
                    &&& is_nearest_hit(self.shapes(), spans@.take(i as int), best)
                    &&& closest_hit == spans@[best].enter
                    &&& closest_handle == spans@[best].handle
                    &&& blocks == Some(self.shapes()[spans@[best].handle.index]->AABB_0.block)
                },
            decreases spans.len() - i,
        {
            let span = spans[i];
            let ghost prefix = spans@.take(i as int);
            let ghost next = spans@.take(i as int + 1);
            proof {
                assert forall|j: int| 0 <= j < i implies next[j] == prefix[j] by {}
                assert(next[i as int] == span);
            }
            let mut taken = false;
            if self.collision_objects.contains(span.handle.index) {
                match self.collision_objects.get(span.handle.index).unwrap() {
                    KbCollisionShape::Sphere(_s) => {},
                    KbCollisionShape::AABB(aabb) => {
                        if span.enter.gt(KbFloat::zero()) && span.leave.ge(span.enter)
                            && span.enter.lt(closest_hit) {
                            closest_hit = span.enter;
                            closest_handle = span.handle;
                            blocks = Some(aabb.block);
                            taken = true;
                        }
                    },
                }
            }
            proof {
                if taken {
                    assert(is_hit(self.shapes(), span));
                    assert forall|j: int|
                        0 <= j < next.len() && is_hit(
                            self.shapes(),
                            #[trigger] next[j],
                        ) implies !next[j].enter.less(span.enter) by {
                        if j < i {
                            assert(is_hit(self.shapes(), prefix[j]));
                            if best >= 0 {
                                assert(!prefix[j].enter.less(prefix[best].enter));
                            }
                        }
                    }
                    assert forall|j: int|
                        0 <= j < i && is_hit(self.shapes(), #[trigger] next[j]) implies span.enter.less(
                        next[j].enter,
                    ) by {
                        assert(is_hit(self.shapes(), prefix[j]));
                        if best >= 0 {
                            assert(!prefix[j].enter.less(prefix[best].enter));
                        }
                    }
                    best = i as int;
                    assert(is_nearest_hit(self.shapes(), next, best));
                } else if best >= 0 {
                    assert(next[best] == prefix[best]);
                    assert forall|j: int|
                        0 <= j < next.len() && is_hit(
                            self.shapes(),
                            #[trigger] next[j],
                        ) implies !next[j].enter.less(next[best].enter) by {
                        if j < i {
                            assert(is_hit(self.shapes(), prefix[j]));
                        }
                    }
                    assert forall|j: int|
                        0 <= j < best && is_hit(self.shapes(), #[trigger] next[j]) implies next[best].enter.less(
                        next[j].enter,
                    ) by {
                        assert(is_hit(self.shapes(), prefix[j]));
                    }
                    assert(is_nearest_hit(self.shapes(), next, best));
                } else {
                    assert(!is_hit(self.shapes(), span));
                }
            }
            i = i + 1;
        }
        proof {
            assert(spans@.take(i as int) =~= spans@);
            if best >= 0 {
                assert(is_hit(self.shapes(), spans@[best]));
            }
        }
        KbRayHit { distance: closest_hit, handle: Some(closest_handle), blocks }
    }

    /// The number of shapes.
    pub fn num_collision_objects(&self) -> (r: usize)
        ensures
            r == self.shapes().len(),
    {
        self.collision_objects.len()
    }
}

} // verus!
