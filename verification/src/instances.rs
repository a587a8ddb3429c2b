//! Per-entity instance buffers.
//!
//! Every renderable entity owns one buffer of packed world matrices, one
//! matrix per instance.  The buffer is created on first sight of the
//! entity and rewritten whenever its transforms change.  Its length in
//! matrices always equals the instance count, so a draw that uses the
//! buffer never reads past what was written for the current transforms.
//!
//! Instance counts are fixed at creation time: when a count changes, the
//! buffer is recreated, which stands in for destroying and re-adding the
//! entity.

use vstd::prelude::*;

use crate::matrix::ints;
use crate::transform::Transform;

verus! {

/// The transforms of every instance of an entity.  An entity with a
/// single transform is carried as a list of length one, so single and
/// instanced draws share one path.
#[derive(Clone, PartialEq, Eq, Debug)]
pub struct Instances(pub Vec<Transform>);

impl Instances {
    /// Every transform is well formed and there is at least one.
    pub open spec fn wf(self) -> bool {
        &&& self.0@.len() >= 1
        &&& forall|i: int| 0 <= i < self.0@.len() ==> #[trigger] self.0@[i].wf()
    }
}

/// The 16 entries that instance `i` occupies in packed matrix data.
pub open spec fn matrix_at(data: Seq<int>, i: int) -> Seq<int> {
    data.subrange(16 * i, 16 * i + 16)
}

/// `data` holds exactly the world matrices of `ts`, in order.
pub open spec fn packed(data: Seq<int>, ts: Seq<Transform>) -> bool {
    &&& data.len() == 16 * ts.len()
    &&& forall|i: int| 0 <= i < ts.len() ==> #[trigger] matrix_at(data, i) == ts[i].world_matrix()
}

/// The GPU-visible mirror of an entity's instance transforms: packed
/// world matrices, 16 words per instance.
#[derive(Clone, PartialEq, Eq, Debug)]
pub struct InstanceBuffer {
    /// Packed matrix entries, column-major, 16 per instance.
    pub data: Vec<i64>,
    /// The instance count the buffer was created for.
    pub capacity: usize,
}

impl InstanceBuffer {
    /// The buffer holds exactly one matrix per instance it was sized for.
    pub open spec fn wf(self) -> bool {
        self.data@.len() == 16 * self.capacity
    }

    /// The buffer contents as mathematical integers.
    pub open spec fn view_int(self) -> Seq<int> {
        ints(self.data@)
    }
}

/// Packs the world matrices of `ts`, in order.
fn pack_matrices(ts: &Vec<Transform>) -> (res: Vec<i64>)
    requires
        forall|i: int| 0 <= i < ts@.len() ==> #[trigger] ts@[i].wf(),
    ensures
        packed(ints(res@), ts@),
{
    let mut data: Vec<i64> = Vec::new();
    let mut i: usize = 0;
    while i < ts.len()
        invariant
            forall|k: int| 0 <= k < ts@.len() ==> #[trigger] ts@[k].wf(),
            i <= ts@.len(),
            data@.len() == 16 * i,
            forall|j: int| 0 <= j < i ==> #[trigger] matrix_at(ints(data@), j) == ts@[j].world_matrix(),
        decreases ts@.len() - i,
    {
        let t: &Transform = &ts[i];
        let m = t.to_raw();
        let ghost prev = data@;
        let mut entries = m.m;
        data.append(&mut entries);
        proof {
            assert forall|j: int| 0 <= j < i + 1 implies #[trigger] matrix_at(ints(data@), j)
                == ts@[j].world_matrix() by {
                if j < i {
                    assert(matrix_at(ints(data@), j) =~= matrix_at(ints(prev), j));
                } else {
                    assert(matrix_at(ints(data@), j) =~= m.view_int());
                }
            }
        }
        i = i + 1;
    }
    data
}

/// Builds the instance buffer for an entity first seen with `instances`:
/// one packed world matrix per transform.
pub fn create_instance_buffer(instances: &Instances) -> (res: InstanceBuffer)
    requires
        instances.wf(),
    ensures
        res.wf(),
        res.capacity == instances.0@.len(),
        packed(res.view_int(), instances.0@),
{
    let data = pack_matrices(&instances.0);
    let capacity = instances.0.len();
    InstanceBuffer { data, capacity }
}

/// Rewrites a buffer in place after its entity's transforms changed.
/// The instance count must still be the one the buffer was created for.
pub fn update_instance_buffer(buffer: &mut InstanceBuffer, instances: &Instances)
    requires
        old(buffer).wf(),
        instances.wf(),
        instances.0@.len() == old(buffer).capacity,
    ensures
        final(buffer).wf(),
        final(buffer).capacity == old(buffer).capacity,
        packed(final(buffer).view_int(), instances.0@),
{
    buffer.data = pack_matrices(&instances.0);
}

/// Owns the instance buffer of every renderable entity, keyed by a
/// stable entity index.  Slots are created on first sight and removed
/// exactly when the entity goes away.
pub struct InstanceBufferArena {
    pub slots: Vec<Option<InstanceBuffer>>,
}

impl InstanceBufferArena {
    /// Every occupied slot holds a well-formed buffer.
    pub open spec fn wf(self) -> bool {
        forall|i: int|
            0 <= i < self.slots@.len() ==> (#[trigger] self.slots@[i] matches Some(b) ==> b.wf())
    }

    /// The buffer of entity `e`, if one exists.
    pub open spec fn buffer_of(self, e: int) -> Option<InstanceBuffer> {
        if 0 <= e < self.slots@.len() {
            self.slots@[e]
        } else {
            None
        }
    }

    /// An empty arena.
    pub fn new() -> (res: InstanceBufferArena)
        ensures
            res.wf(),
            res.slots@.len() == 0,
    {
        InstanceBufferArena { slots: Vec::new() }
    }

    /// Grows the slot list until entity `entity` has a slot.
    fn grow_to(&mut self, entity: usize)
        requires
            old(self).wf(),
        ensures
            final(self).wf(),
            final(self).slots@.len() > entity,
            final(self).slots@.len() >= old(self).slots@.len(),
            forall|e: int|
                #![trigger final(self).buffer_of(e)]
                #![trigger old(self).buffer_of(e)]
                final(self).buffer_of(e) == old(self).buffer_of(e),
    {
        while self.slots.len() <= entity
            invariant
                self.wf(),
                self.slots@.len() >= old(self).slots@.len(),
                forall|e: int|
                    #![trigger self.buffer_of(e)]
                    #![trigger old(self).buffer_of(e)]
                    self.buffer_of(e) == old(self).buffer_of(e),
            decreases entity + 1 - self.slots@.len(),
        {
            self.slots.push(None);
        }
    }

    /// Creates the entity's instance buffer if it has none yet; an
    /// existing buffer is left untouched.  This is the once-per-entity
    /// step that runs when a renderable is first seen.
    pub fn ensure_instance_buffer(&mut self, entity: usize, instances: &Instances)
        requires
            old(self).wf(),
            instances.wf(),
        ensures
            final(self).wf(),
            final(self).buffer_of(entity as int) matches Some(b) && (match old(self).buffer_of(
                entity as int,
            ) {
                Some(prev) => b == prev,
                None => b.capacity == instances.0@.len() && packed(b.view_int(), instances.0@),
            }),
            forall|e: int|
                e != entity ==> #[trigger] final(self).buffer_of(e) == old(self).buffer_of(e),
    {
        self.grow_to(entity);
        if self.slots[entity].is_none() {
            self.slots[entity] = Some(create_instance_buffer(instances));
        }
    }

    /// Brings the entity's buffer in sync with `instances` after a
    /// change.  A buffer sized for the current count is rewritten in
    /// place; a missing buffer, or one sized for another count, is
    /// recreated, which stands for destroying and re-adding the entity.
    pub fn refresh_instance_buffer(&mut self, entity: usize, instances: &Instances)
        requires
            old(self).wf(),
            instances.wf(),
        ensures
            final(self).wf(),
            final(self).buffer_of(entity as int) matches Some(b) && b.capacity
                == instances.0@.len() && packed(b.view_int(), instances.0@),
            forall|e: int|
                e != entity ==> #[trigger] final(self).buffer_of(e) == old(self).buffer_of(e),
    {
        self.grow_to(entity);
        let slot = &mut self.slots[entity];
        match slot {
            Some(buffer) => {
                if buffer.capacity == instances.0.len() {
                    update_instance_buffer(buffer, instances);
                } else {
                    *slot = Some(create_instance_buffer(instances));
                }
            },
            None => {
                *slot = Some(create_instance_buffer(instances));
            },
        }
    }

    /// Drops the entity's buffer when the entity is destroyed.
    pub fn remove_entity(&mut self, entity: usize)
        requires
            old(self).wf(),
        ensures
            final(self).wf(),
            final(self).buffer_of(entity as int) is None,
            forall|e: int|
                e != entity ==> #[trigger] final(self).buffer_of(e) == old(self).buffer_of(e),
    {
        if entity < self.slots.len() {
            self.slots[entity] = None;
        }
    }
}

} // verus!
