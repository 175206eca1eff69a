//! The plain value types that cross the boundary to Box2D: its generational ids, and the
//! numbers by which it names body, joint and shape types.
#![allow(non_camel_case_types, non_upper_case_globals)]

use vstd::prelude::*;
use vstd::std_specs::cmp::PartialEqSpecImpl;

verus! {

/// World id references a world instance: the slot it occupies in Box2D's world array, plus
/// one, and a generation that tells the worlds which have held that slot apart.
#[derive(Clone, Copy, Debug, Hash)]
pub struct b2WorldId {
    pub index1: u16,
    pub generation: u16,
}

/// Body id: the body's slot in its world, plus one; the slot of its world; and a generation.
#[derive(Clone, Copy, Debug, Hash)]
pub struct b2BodyId {
    pub index1: i32,
    pub world0: u16,
    pub generation: u16,
}

/// Shape id: the shape's slot in its world, plus one; the slot of its world; and a generation.
#[derive(Clone, Copy, Debug, Hash)]
pub struct b2ShapeId {
    pub index1: i32,
    pub world0: u16,
    pub generation: u16,
}

/// Joint id: the joint's slot in its world, plus one; the slot of its world; and a generation.
#[derive(Clone, Copy, Debug, Hash)]
pub struct b2JointId {
    pub index1: i32,
    pub world0: u16,
    pub generation: u16,
}

impl PartialEq for b2WorldId {
    fn eq(&self, other: &Self) -> (r: bool)
        ensures
            r == (self.index1 == other.index1 && self.generation == other.generation),
    {
        self.generation == other.generation && self.index1 == other.index1
    }
}

impl PartialEqSpecImpl for b2WorldId {
    open spec fn obeys_eq_spec() -> bool {
        true
    }

    open spec fn eq_spec(&self, other: &Self) -> bool {
        self.generation == other.generation && self.index1 == other.index1
    }
}

impl Eq for b2WorldId {}

impl PartialEq for b2BodyId {
    fn eq(&self, other: &Self) -> (r: bool)
        ensures
            r == (self.index1 == other.index1 && self.world0 == other.world0 && self.generation == other.generation),
    {
        self.index1 == other.index1 && self.world0 == other.world0 && self.generation
            == other.generation
    }
}

impl PartialEqSpecImpl for b2BodyId {
    open spec fn obeys_eq_spec() -> bool {
        true
    }

    open spec fn eq_spec(&self, other: &Self) -> bool {
        self.index1 == other.index1 && self.world0 == other.world0 && self.generation
            == other.generation
    }
}

impl Eq for b2BodyId {}

impl PartialEq for b2ShapeId {
    fn eq(&self, other: &Self) -> (r: bool)
        ensures
            r == (self.index1 == other.index1 && self.world0 == other.world0 && self.generation == other.generation),
    {
        self.index1 == other.index1 && self.world0 == other.world0 && self.generation
            == other.generation
    }
}

impl PartialEqSpecImpl for b2ShapeId {
    open spec fn obeys_eq_spec() -> bool {
        true
    }

    open spec fn eq_spec(&self, other: &Self) -> bool {
        self.index1 == other.index1 && self.world0 == other.world0 && self.generation
            == other.generation
    }
}

impl Eq for b2ShapeId {}

impl PartialEq for b2JointId {
    fn eq(&self, other: &Self) -> (r: bool)
        ensures
            r == (self.index1 == other.index1 && self.world0 == other.world0 && self.generation == other.generation),
    {
        self.index1 == other.index1 && self.world0 == other.world0 && self.generation
            == other.generation
    }
}

impl PartialEqSpecImpl for b2JointId {
    open spec fn obeys_eq_spec() -> bool {
        true
    }

    open spec fn eq_spec(&self, other: &Self) -> bool {
        self.index1 == other.index1 && self.world0 == other.world0 && self.generation
            == other.generation
    }
}

impl Eq for b2JointId {}

/// Box2D's number for a static body.
pub const b2BodyType_b2_staticBody: u32 = 0;

/// Box2D's number for a kinematic body.
pub const b2BodyType_b2_kinematicBody: u32 = 1;

/// Box2D's number for a dynamic body.
pub const b2BodyType_b2_dynamicBody: u32 = 2;

/// Box2D's number for a distance joint.
pub const b2JointType_b2_distanceJoint: u32 = 0;

/// Box2D's number for a filter joint.
pub const b2JointType_b2_filterJoint: u32 = 1;

/// Box2D's number for a motor joint.
pub const b2JointType_b2_motorJoint: u32 = 2;

/// Box2D's number for a mouse joint.
pub const b2JointType_b2_mouseJoint: u32 = 3;

/// Box2D's number for a prismatic joint.
pub const b2JointType_b2_prismaticJoint: u32 = 4;

/// Box2D's number for a revolute joint.
pub const b2JointType_b2_revoluteJoint: u32 = 5;

/// Box2D's number for a weld joint.
pub const b2JointType_b2_weldJoint: u32 = 6;

/// Box2D's number for a wheel joint.
pub const b2JointType_b2_wheelJoint: u32 = 7;

/// Box2D's number for a circle shape.
pub const b2ShapeType_b2_circleShape: u32 = 0;

/// Box2D's number for a polygon shape.
pub const b2ShapeType_b2_polygonShape: u32 = 3;

} // verus!
