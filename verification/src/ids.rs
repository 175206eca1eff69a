//! Typed handles for the generational ids Box2D hands out. Two ids are equal exactly when all
//! of their parts are.
use vstd::prelude::*;
use vstd::std_specs::cmp::{PartialEqSpec, PartialEqSpecImpl};
use vstd::std_specs::convert::FromSpecImpl;

use crate::sys::{b2BodyId, b2ShapeId, b2WorldId};

verus! {

/// Body id references a body instance. This should be treated as an opaque handle.
#[derive(Copy, Clone, Debug, Hash)]
pub struct BodyId(pub b2BodyId);

/// Shape id references a shape instance. This should be treated as an opaque handle.
#[derive(Copy, Clone, Debug, Hash)]
pub struct ShapeId(pub b2ShapeId);

/// World id references a world instance. This should be treated as an opaque handle.
#[derive(Copy, Clone, Debug, Hash)]
pub struct WorldId(pub b2WorldId);

impl BodyId {
    /// Creates a [`BodyId`] from a [`b2BodyId`].
    pub fn from_b2(input: b2BodyId) -> (r: Self)
        ensures
            r.0 == input,
    {
        BodyId(input)
    }
}

impl ShapeId {
    /// Creates a [`ShapeId`] from a [`b2ShapeId`].
    pub fn from_b2(input: b2ShapeId) -> (r: Self)
        ensures
            r.0 == input,
    {
        ShapeId(input)
    }
}

impl WorldId {
    /// Creates a [`WorldId`] from a [`b2WorldId`].
    pub fn from_b2(input: b2WorldId) -> (r: Self)
        ensures
            r.0 == input,
    {
        WorldId(input)
    }
}

impl PartialEq for BodyId {
    fn eq(&self, other: &Self) -> (r: bool)
        ensures
            r == (self.0.index1 == other.0.index1 && self.0.world0 == other.0.world0 && self.0.generation == other.0.generation),
    {
        self.0 == other.0
    }
}

impl PartialEqSpecImpl for BodyId {
    open spec fn obeys_eq_spec() -> bool {
        true
    }

    open spec fn eq_spec(&self, other: &Self) -> bool {
        self.0 == other.0
    }
}

impl Eq for BodyId {}

impl PartialEq for ShapeId {
    fn eq(&self, other: &Self) -> (r: bool)
        ensures
            r == (self.0.index1 == other.0.index1 && self.0.world0 == other.0.world0 && self.0.generation == other.0.generation),
    {
        self.0 == other.0
    }
}

impl PartialEqSpecImpl for ShapeId {
    open spec fn obeys_eq_spec() -> bool {
        true
    }

    open spec fn eq_spec(&self, other: &Self) -> bool {
        self.0 == other.0
    }
}

impl Eq for ShapeId {}

impl PartialEq for WorldId {
    fn eq(&self, other: &Self) -> (r: bool)
        ensures
            r == (self.0.index1 == other.0.index1 && self.0.generation == other.0.generation),
    {
        self.0 == other.0
    }
}

impl PartialEqSpecImpl for WorldId {
    open spec fn obeys_eq_spec() -> bool {
        true
    }

    open spec fn eq_spec(&self, other: &Self) -> bool {
        self.0 == other.0
    }
}

impl Eq for WorldId {}

impl From<b2BodyId> for BodyId {
    fn from(value: b2BodyId) -> (r: Self) {
        Self::from_b2(value)
    }
}

impl FromSpecImpl<b2BodyId> for BodyId {
    open spec fn obeys_from_spec() -> bool {
        true
    }

    open spec fn from_spec(v: b2BodyId) -> Self {
        BodyId(v)
    }
}

impl From<BodyId> for b2BodyId {
    fn from(value: BodyId) -> (r: Self) {
        value.0
    }
}

impl FromSpecImpl<BodyId> for b2BodyId {
    open spec fn obeys_from_spec() -> bool {
        true
    }

    open spec fn from_spec(v: BodyId) -> Self {
        v.0
    }
}

impl From<b2ShapeId> for ShapeId {
    fn from(value: b2ShapeId) -> (r: Self) {
        Self::from_b2(value)
    }
}

impl FromSpecImpl<b2ShapeId> for ShapeId {
    open spec fn obeys_from_spec() -> bool {
        true
    }

    open spec fn from_spec(v: b2ShapeId) -> Self {
        ShapeId(v)
    }
}

impl From<ShapeId> for b2ShapeId {
    fn from(value: ShapeId) -> (r: Self) {
        value.0
    }
}

impl FromSpecImpl<ShapeId> for b2ShapeId {
    open spec fn obeys_from_spec() -> bool {
        true
    }

    open spec fn from_spec(v: ShapeId) -> Self {
        v.0
    }
}

impl From<b2WorldId> for WorldId {
    fn from(value: b2WorldId) -> (r: Self) {
        Self::from_b2(value)
    }
}

impl FromSpecImpl<b2WorldId> for WorldId {
    open spec fn obeys_from_spec() -> bool {
        true
    }

    open spec fn from_spec(v: b2WorldId) -> Self {
        WorldId(v)
    }
}

impl From<WorldId> for b2WorldId {
    fn from(value: WorldId) -> (r: Self) {
        value.0
    }
}

impl FromSpecImpl<WorldId> for b2WorldId {
    open spec fn obeys_from_spec() -> bool {
        true
    }

    open spec fn from_spec(v: WorldId) -> Self {
        v.0
    }
}

/// Two body ids are equal exactly when they name the same slot, in the same world slot, in the
/// same generation: ids of different bodies, or of one slot's different generations, differ.
pub proof fn lemma_body_id_equality(a: BodyId, b: BodyId)
    ensures
        PartialEqSpec::eq_spec(&a, &b) <==> (a.0.index1 == b.0.index1 && a.0.world0 == b.0.world0
            && a.0.generation == b.0.generation),
        PartialEqSpec::eq_spec(&a, &b) <==> a == b,
{
}

/// Two shape ids are equal exactly when all of their parts are.
pub proof fn lemma_shape_id_equality(a: ShapeId, b: ShapeId)
    ensures
        PartialEqSpec::eq_spec(&a, &b) <==> (a.0.index1 == b.0.index1 && a.0.world0 == b.0.world0
            && a.0.generation == b.0.generation),
        PartialEqSpec::eq_spec(&a, &b) <==> a == b,
{
}

/// Two world ids are equal exactly when their index and generation are.
pub proof fn lemma_world_id_equality(a: WorldId, b: WorldId)
    ensures
        PartialEqSpec::eq_spec(&a, &b) <==> (a.0.index1 == b.0.index1 && a.0.generation == b.0.generation),
        PartialEqSpec::eq_spec(&a, &b) <==> a == b,
{
}

impl core::ops::Deref for BodyId {
    type Target = b2BodyId;

    fn deref(&self) -> (r: &b2BodyId)
        ensures
            *r == self.0,
    {
        &self.0
    }
}

impl core::ops::Deref for ShapeId {
    type Target = b2ShapeId;

    fn deref(&self) -> (r: &b2ShapeId)
        ensures
            *r == self.0,
    {
        &self.0
    }
}

impl core::ops::Deref for WorldId {
    type Target = b2WorldId;

    fn deref(&self) -> (r: &b2WorldId)
        ensures
            *r == self.0,
    {
        &self.0
    }
}

} // verus!
