//! The world: which ids it owns, and the decisions it makes around the engine's answers.
use std::sync::{MutexGuard, PoisonError};

use vstd::prelude::*;

use crate::body::Body;
use crate::ids::{BodyId, ShapeId};
use crate::joint::{InvalidJointBody, Joint, JointId};
use crate::shape::Shape;
use crate::sys::b2WorldId;

verus! {

/// A physics world, named by the id Box2D gave it when it was created.
///
/// A world contains bodies, shapes, and constraints. Box2D keeps every world in one global
/// array of 128 slots, and every id it hands out for a body, shape or joint records the slot of
/// the world it belongs to.
#[derive(Debug)]
pub struct World {
    id: b2WorldId,
}

/// Could not make a new world; only 128 may exist at once.
#[derive(Debug, Clone, Copy, PartialEq, Eq, Structural)]
pub struct TooManyWorlds;

/// Statistics for an overlap query.
#[derive(Debug, Clone, Copy, PartialEq, Eq, Structural)]
pub struct OverlapStats {
    /// The number of tree nodes visited.
    pub node_visits: i32,
    /// The number of tree leaves visited.
    pub leaf_visits: i32,
}

/// Limits which shapes a world query reports: a shape is considered when the query's category
/// is in the shape's mask, and the shape's category is in the query's mask.
#[derive(Debug, Clone, Copy, PartialEq, Eq, Structural)]
pub struct QueryFilter {
    /// The categories this query belongs to. The default is `1`.
    pub category_bits: u64,
    /// The categories of shape this query accepts. The default is every category.
    pub mask_bits: u64,
}

impl Default for QueryFilter {
    fn default() -> (r: Self)
        ensures
            r.category_bits == 1,
            r.mask_bits == u64::MAX,
    {
        QueryFilter { category_bits: 1, mask_bits: u64::MAX }
    }
}

impl View for World {
    type V = b2WorldId;

    closed spec fn view(&self) -> b2WorldId {
        self.id
    }
}

/// The slot of Box2D's world array that a world id names: one less than its index, wrapping
/// round for the null id.
pub open spec fn world_slot(id: b2WorldId) -> u16 {
    if id.index1 == 0 {
        u16::MAX
    } else {
        (id.index1 - 1) as u16
    }
}

/// Whether something whose id records the world slot `world0` and which Box2D reports as
/// live (`is_valid`) belongs to the world `world`.
pub open spec fn owned_by(world: b2WorldId, world0: u16, is_valid: bool) -> bool {
    world_slot(world) == world0 && is_valid
}

/// What creating a mouse joint between two bodies comes to: body A is checked first.
pub open spec fn joint_bodies_verdict(
    world: b2WorldId,
    body_id_a: BodyId,
    body_a_is_valid: bool,
    body_id_b: BodyId,
    body_b_is_valid: bool,
) -> Result<(), InvalidJointBody> {
    if !owned_by(world, body_id_a.0.world0, body_a_is_valid) {
        Err(InvalidJointBody::BodyA)
    } else if !owned_by(world, body_id_b.0.world0, body_b_is_valid) {
        Err(InvalidJointBody::BodyB)
    } else {
        Ok(())
    }
}

impl World {
    /// The default number of sub-steps to do in a world step.
    pub const SUB_STEPS: u32 = 4;

    /// The world Box2D has just created as `created`, if it reports that world as valid: Box2D
    /// hands out an invalid id when all of its world slots are taken.
    pub fn try_new(created: b2WorldId, created_is_valid: bool) -> (r: Result<World, TooManyWorlds>)
        ensures
            r is Ok <==> created_is_valid,
            r matches Ok(w) ==> w@ == created,
    {
        if created_is_valid {
            Ok(World { id: created })
        } else {
            Err(TooManyWorlds)
        }
    }

    /// The raw id of the world.
    pub fn id(&self) -> (r: b2WorldId)
        ensures
            r == self@,
    {
        self.id
    }

    /// The slot of Box2D's world array that this world occupies.
    pub fn slot(&self) -> (r: u16)
        ensures
            r == world_slot(self@),
            self@.index1 != 0 ==> r == self@.index1 - 1,
            self@.index1 == 0 ==> r == u16::MAX,
    {
        self.id.index1.wrapping_sub(1)
    }

    /// Whether `body_id` names a live body in *this* world, where `body_is_valid` is what Box2D
    /// reports of the id's validity.
    ///
    /// If you make and destroy a world, the old body ids from the past world may overlap
    /// (ie, break the A-B-A problem) from bodies in the new world -- Box2d only exposes world
    /// slot index, but not generation data.
    pub fn owns_body(&self, body_id: BodyId, body_is_valid: bool) -> (r: bool)
        ensures
            r == owned_by(self@, body_id.0.world0, body_is_valid),
    {
        self.slot() == body_id.0.world0 && body_is_valid
    }

    /// Whether `shape_id` names a live shape in *this* world, where `shape_is_valid` is what
    /// Box2D reports of the id's validity.
    pub fn owns_shape(&self, shape_id: ShapeId, shape_is_valid: bool) -> (r: bool)
        ensures
            r == owned_by(self@, shape_id.0.world0, shape_is_valid),
    {
        self.slot() == shape_id.0.world0 && shape_is_valid
    }

    /// Whether `joint_id` names a live joint in *this* world, where `joint_is_valid` is what
    /// Box2D reports of the id's validity.
    pub fn owns_joint(&self, joint_id: JointId, joint_is_valid: bool) -> (r: bool)
        ensures
            r == owned_by(self@, joint_id.0.world0, joint_is_valid),
    {
        self.slot() == joint_id.0.world0 && joint_is_valid
    }

    /// Gets a given [`Body`] from an existing [`BodyId`].
    ///
    /// Returns `None` if the body has been destroyed, or belongs to a different world.
    pub fn body(&self, body_id: BodyId, body_is_valid: bool) -> (r: Option<Body<'_>>)
        ensures
            r is Some <==> owned_by(self@, body_id.0.world0, body_is_valid),
            r matches Some(b) ==> b@ == body_id,
    {
        if self.owns_body(body_id, body_is_valid) {
            Some(Body::new(body_id))
        } else {
            None
        }
    }

    /// Gets a given [`Shape`] from an existing [`ShapeId`].
    ///
    /// Returns `None` if the shape has been destroyed, or belongs to a different world.
    pub fn shape(&self, shape_id: ShapeId, shape_is_valid: bool) -> (r: Option<Shape<'_>>)
        ensures
            r is Some <==> owned_by(self@, shape_id.0.world0, shape_is_valid),
            r matches Some(s) ==> s@ == shape_id,
    {
        if self.owns_shape(shape_id, shape_is_valid) {
            Some(Shape::new(shape_id))
        } else {
            None
        }
    }

    /// Gets a given [`Joint`] from an existing [`JointId`].
    ///
    /// Returns `None` if the joint has been destroyed, or belongs to a different world.
    pub fn joint(&self, joint_id: JointId, joint_is_valid: bool) -> (r: Option<Joint<'_>>)
        ensures
            r is Some <==> owned_by(self@, joint_id.0.world0, joint_is_valid),
            r matches Some(j) ==> j@ == joint_id,
    {
        if self.owns_joint(joint_id, joint_is_valid) {
            Some(Joint::new(joint_id))
        } else {
            None
        }
    }

    /// Whether a mouse joint may be made between the bodies `body_id_a` and `body_id_b`, given
    /// what Box2D reports of their validity: both must be live bodies of this world.
    ///
    /// Box2D only checks the bodies in a debug assertion, and indexes its body array with them
    /// regardless, so a stale or foreign id would read out of bounds.
    pub fn check_joint_bodies(
        &self,
        body_id_a: BodyId,
        body_a_is_valid: bool,
        body_id_b: BodyId,
        body_b_is_valid: bool,
    ) -> (r: Result<(), InvalidJointBody>)
        ensures
            r == joint_bodies_verdict(self@, body_id_a, body_a_is_valid, body_id_b, body_b_is_valid),
    {
        if !self.owns_body(body_id_a, body_a_is_valid) {
            return Err(InvalidJointBody::BodyA);
        }
        if !self.owns_body(body_id_b, body_b_is_valid) {
            return Err(InvalidJointBody::BodyB);
        }
        Ok(())
    }
}

/// One reply of an overlap query's callback, taken in: a shape reply (`Some`) is kept as the
/// query's result and stops the query; no reply (`None`) keeps what was found and goes on.
/// The second part is whether the query goes on.
pub open spec fn overlap_step<R>(found: Option<R>, reply: Option<R>) -> (Option<R>, bool) {
    match reply {
        Some(r) => (Some(r), false),
        None => (found, true),
    }
}

/// What an overlap query that starts from `found` comes to when its callback gives `replies`,
/// one for each shape Box2D reports, in order, until a step says to stop.
pub open spec fn overlap_outcome<R>(found: Option<R>, replies: Seq<Option<R>>) -> Option<R>
    decreases replies.len(),
{
    if replies.len() == 0 {
        found
    } else {
        let (next, go_on) = overlap_step(found, replies[0]);
        if go_on {
            overlap_outcome(next, replies.drop_first())
        } else {
            next
        }
    }
}

/// The first reply among `replies` that is `Some`, if there is one.
pub open spec fn first_reply<R>(replies: Seq<Option<R>>) -> Option<R>
    decreases replies.len(),
{
    if replies.len() == 0 {
        None
    } else if replies[0] is Some {
        replies[0]
    } else {
        first_reply(replies.drop_first())
    }
}

/// The positions, in order, of the begin-touch events both of whose shapes are still live,
/// where `shapes_valid` holds what Box2D reports of the validity of each event's two shapes.
pub open spec fn live_touch_indices(shapes_valid: Seq<(bool, bool)>) -> Seq<usize> {
    Seq::new(shapes_valid.len(), |i: int| i as usize).filter(
        |i: usize| shapes_valid[i as int].0 && shapes_valid[i as int].1,
    )
}

impl World {
    /// Takes in one reply of an overlap query's callback, and says whether the query goes on.
    ///
    /// If the callback returns `Some(r)`, the query stops early and its result is `r`.
    pub fn overlap_reply<R>(found: &mut Option<R>, reply: Option<R>) -> (go_on: bool)
        ensures
            (*final(found), go_on) == overlap_step(*old(found), reply),
            reply is None ==> go_on && *final(found) == *old(found),
            reply matches Some(r) ==> !go_on && *final(found) == Some(r),
    {
        match reply {
            Some(r) => {
                *found = Some(r);
                false
            },
            None => true,
        }
    }

    /// The positions of the begin-touch events to report, in order: those both of whose
    /// shapes are still live. `shapes_valid` holds, for each event Box2D hands out, what it
    /// reports of the validity of the event's two shapes.
    pub fn live_begin_touches(shapes_valid: &Vec<(bool, bool)>) -> (r: Vec<usize>)
        ensures
            r@ == live_touch_indices(shapes_valid@),
            forall|i: int|
                0 <= i < shapes_valid@.len() && shapes_valid@[i].0 && shapes_valid@[i].1
                    ==> r@.contains(i as usize),
            forall|k: int|
                0 <= k < r@.len() ==> {
                    let i = #[trigger] r@[k];
                    &&& i < shapes_valid@.len()
                    &&& shapes_valid@[i as int].0
                    &&& shapes_valid@[i as int].1
                },
            forall|k: int, l: int| 0 <= k < l < r@.len() ==> r@[k] < r@[l],
    {
        let ghost pred = |i: usize| shapes_valid@[i as int].0 && shapes_valid@[i as int].1;
        let mut live: Vec<usize> = Vec::new();
        let n = shapes_valid.len();
        for i in 0..n
            invariant
                n == shapes_valid@.len(),
                pred == (|i: usize| shapes_valid@[i as int].0 && shapes_valid@[i as int].1),
                live@ == Seq::new(i as nat, |k: int| k as usize).filter(pred),
        {
            proof {
                assert(Seq::new((i + 1) as nat, |k: int| k as usize) =~= Seq::new(
                    i as nat,
                    |k: int| k as usize,
                ).push(i));
                Seq::new(i as nat, |k: int| k as usize).lemma_filter_push(i, pred);
            }
            let (valid_a, valid_b) = shapes_valid[i];
            if valid_a && valid_b {
                live.push(i);
            }
        }
        proof {
            lemma_live_touches_are_the_live_events(shapes_valid@);
        }
        live
    }
}

/// An overlap query reports the first shape its callback answers with `Some`, and `None` when
/// the callback answers `None` for every shape.
pub proof fn lemma_overlap_reports_first_reply<R>(replies: Seq<Option<R>>)
    ensures
        overlap_outcome(None, replies) == first_reply(replies),
    decreases replies.len(),
{
    if replies.len() > 0 && replies[0] is None {
        lemma_overlap_reports_first_reply(replies.drop_first());
    }
}

/// A reply of `None` never changes what an overlap query has found, and the query goes on; a
/// reply of `Some(r)` makes `r` the result, and the query stops.
pub proof fn lemma_overlap_step<R>(found: Option<R>, r: R)
    ensures
        overlap_step(found, None).0 == found,
        overlap_step(found, None).1,
        overlap_step(found, Some(r)).0 == Some(r),
        !overlap_step(found, Some(r)).1,
{
}

/// Once an overlap query has found a shape, it reports a shape whatever the callback answers
/// afterwards: the result is never lost.
pub proof fn lemma_overlap_keeps_a_found_shape<R>(found: Option<R>, replies: Seq<Option<R>>)
    requires
        found is Some,
    ensures
        overlap_outcome(found, replies) is Some,
        (forall|i: int| 0 <= i < replies.len() ==> replies[i] is None) ==> overlap_outcome(
            found,
            replies,
        ) == found,
    decreases replies.len(),
{
    if replies.len() > 0 && replies[0] is None {
        assert forall|i: int| 0 <= i < replies.drop_first().len() implies #[trigger] replies.drop_first()[i]
            == replies[i + 1] by {}
        lemma_overlap_keeps_a_found_shape(found, replies.drop_first());
    }
}

/// The slot of a world is one less than its index, whatever its generation; only the null
/// index wraps round to the last slot.
pub proof fn lemma_world_slot_is_index_less_one(world: b2WorldId)
    ensures
        world.index1 != 0 ==> world_slot(world) == world.index1 - 1,
        world.index1 == 0 ==> world_slot(world) == u16::MAX,
{
}

/// A live id recording a world's slot (one less than its index) belongs to that world, whatever
/// the world's generation; two worlds with the same index own the same ids.
pub proof fn lemma_world_owns_ids_of_its_slot(world: b2WorldId, other: b2WorldId, world0: u16)
    requires
        world.index1 != 0,
        world0 == world.index1 - 1,
        other.index1 == world.index1,
    ensures
        owned_by(world, world0, true),
        owned_by(other, world0, true),
        forall|valid: bool| owned_by(world, world0, valid) == owned_by(other, world0, valid),
{
}

/// Every begin-touch event both of whose shapes are live is reported, and only those; the
/// positions come in increasing order, each at most once.
pub proof fn lemma_live_touches_are_the_live_events(shapes_valid: Seq<(bool, bool)>)
    requires
        shapes_valid.len() <= usize::MAX,
    ensures
        forall|i: int|
            0 <= i < shapes_valid.len() && shapes_valid[i].0 && shapes_valid[i].1
                ==> live_touch_indices(shapes_valid).contains(i as usize),
        forall|k: int|
            0 <= k < live_touch_indices(shapes_valid).len() ==> {
                let i = #[trigger] live_touch_indices(shapes_valid)[k];
                &&& i < shapes_valid.len()
                &&& shapes_valid[i as int].0
                &&& shapes_valid[i as int].1
            },
        forall|k: int, l: int|
            0 <= k < l < live_touch_indices(shapes_valid).len() ==> live_touch_indices(
                shapes_valid,
            )[k] < live_touch_indices(shapes_valid)[l],
{
    let pred = |i: usize| shapes_valid[i as int].0 && shapes_valid[i as int].1;
    lemma_filtered_indices(shapes_valid, pred, shapes_valid.len());
}

/// The indices below `n` filtered by `pred` are exactly those that `pred` holds of, in
/// increasing order.
proof fn lemma_filtered_indices(
    shapes_valid: Seq<(bool, bool)>,
    pred: spec_fn(usize) -> bool,
    n: nat,
)
    requires
        n <= shapes_valid.len(),
        shapes_valid.len() <= usize::MAX,
        pred == (|i: usize| shapes_valid[i as int].0 && shapes_valid[i as int].1),
    ensures
        ({
            let f = Seq::new(n, |i: int| i as usize).filter(pred);
            &&& forall|i: int|
                0 <= i < n && shapes_valid[i].0 && shapes_valid[i].1 ==> f.contains(i as usize)
            &&& forall|k: int|
                0 <= k < f.len() ==> {
                    let i = #[trigger] f[k];
                    &&& i < n
                    &&& shapes_valid[i as int].0
                    &&& shapes_valid[i as int].1
                }
            &&& forall|k: int, l: int| 0 <= k < l < f.len() ==> f[k] < f[l]
        }),
    decreases n,
{
    let s = Seq::new(n, |i: int| i as usize);
    if n == 0 {
        reveal(Seq::filter);
    } else {
        let m = (n - 1) as nat;
        lemma_filtered_indices(shapes_valid, pred, m);
        let prev = Seq::new(m, |i: int| i as usize);
        assert(s =~= prev.push(m as usize));
        prev.lemma_filter_push(m as usize, pred);
        let pf = prev.filter(pred);
        let f = s.filter(pred);
        assert(pred(m as usize) ==> f == pf.push(m as usize));
        assert(!pred(m as usize) ==> f == pf);
        assert forall|i: int|
            0 <= i < n && shapes_valid[i].0 && shapes_valid[i].1 implies f.contains(i as usize) by {
            if i < m {
                assert(pf.contains(i as usize));
                let k = choose|k: int| 0 <= k < pf.len() && pf[k] == i as usize;
                if pred(m as usize) {
                    assert(f[k] == i as usize);
                }
            } else {
                assert(i == m);
                assert(pred(m as usize));
                assert(f[f.len() - 1] == m as usize);
            }
        }
        assert forall|k: int| 0 <= k < f.len() implies ({
            let i = #[trigger] f[k];
            &&& i < n
            &&& shapes_valid[i as int].0
            &&& shapes_valid[i as int].1
        }) by {
            if k < pf.len() {
                assert(f[k] == pf[k]);
            } else {
                assert(f[k] == m as usize);
            }
        }
        assert forall|k: int, l: int| 0 <= k < l < f.len() implies f[k] < f[l] by {
            if l < pf.len() {
                assert(f[k] == pf[k] && f[l] == pf[l]);
            } else {
                assert(f[k] == pf[k]);
                assert(f[l] == m as usize);
            }
        }
    }
}

/// The trusted declaration of `std::sync::MutexGuard`.
#[verifier::external_type_specification]
#[verifier::external_body]
#[verifier::reject_recursive_types(T)]
pub struct ExMutexGuard<'a, T: ?Sized + 'a>(MutexGuard<'a, T>);

/// The trusted declaration of `std::sync::PoisonError`.
#[verifier::external_type_specification]
#[verifier::external_body]
#[verifier::reject_recursive_types(T)]
pub struct ExPoisonError<T>(PoisonError<T>);

/// Calls `PoisonError::into_inner`, which hands back the guard that a poisoned lock still
/// gave. Nothing is stated of the result.
#[verifier::external_body]
fn recover_guard(poisoned: PoisonError<MutexGuard<'static, ()>>) -> (r: MutexGuard<'static, ()>) {
    poisoned.into_inner()
}

/// The guard of the lock that every world creation and destruction holds, out of what locking
/// it gave back (`locked`, the result of `Mutex::lock` on that lock).
///
/// Box2D keeps every world in one global array and claims slots without synchronization, so
/// two threads creating worlds at once could claim the same slot. The lock guards no data, so
/// a poisoned lock has nothing broken to report, and its guard is taken all the same -- this is
/// taken while dropping a world, which must not panic.
pub fn world_lock(
    locked: Result<MutexGuard<'static, ()>, PoisonError<MutexGuard<'static, ()>>>,
) -> (r: MutexGuard<'static, ()>)
    ensures
        locked matches Ok(guard) ==> r == guard,
{
    match locked {
        Ok(guard) => guard,
        Err(poisoned) => recover_guard(poisoned),
    }
}

/// Ids from another world are rejected: of two worlds in different slots, at most one owns
/// any given id, however Box2D reports its validity.
pub proof fn lemma_foreign_ids_are_rejected(w1: b2WorldId, w2: b2WorldId, world0: u16, is_valid: bool)
    requires
        world_slot(w1) != world_slot(w2),
    ensures
        !(owned_by(w1, world0, is_valid) && owned_by(w2, world0, is_valid)),
{
}

/// An id that Box2D no longer reports as valid (destroyed, or never created) is owned by no
/// world, and so no world hands out a handle for it or destroys it.
pub proof fn lemma_invalid_ids_are_owned_by_none(world: b2WorldId, world0: u16)
    ensures
        !owned_by(world, world0, false),
{
}

/// A mouse joint is made exactly when both of its bodies are live bodies of the world, and a
/// refusal names body A whenever body A is at fault.
pub proof fn lemma_joint_verdict(
    world: b2WorldId,
    body_id_a: BodyId,
    body_a_is_valid: bool,
    body_id_b: BodyId,
    body_b_is_valid: bool,
)
    ensures
        joint_bodies_verdict(world, body_id_a, body_a_is_valid, body_id_b, body_b_is_valid) is Ok
            <==> owned_by(world, body_id_a.0.world0, body_a_is_valid) && owned_by(
            world,
            body_id_b.0.world0,
            body_b_is_valid,
        ),
        !owned_by(world, body_id_a.0.world0, body_a_is_valid) ==> joint_bodies_verdict(
            world,
            body_id_a,
            body_a_is_valid,
            body_id_b,
            body_b_is_valid,
        ) == Err::<(), InvalidJointBody>(InvalidJointBody::BodyA),
        owned_by(world, body_id_a.0.world0, body_a_is_valid) && !owned_by(
            world,
            body_id_b.0.world0,
            body_b_is_valid,
        ) ==> joint_bodies_verdict(world, body_id_a, body_a_is_valid, body_id_b, body_b_is_valid)
            == Err::<(), InvalidJointBody>(InvalidJointBody::BodyB),
{
}

} // verus!
