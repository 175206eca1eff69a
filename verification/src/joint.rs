//! Joints: their ids and kinds, the handles a world lends out for them, and the error for a
//! joint definition that names a body which cannot be joined.
use core::marker::PhantomData;

use vstd::prelude::*;
use vstd::std_specs::cmp::{PartialEqSpec, PartialEqSpecImpl};
use vstd::std_specs::convert::FromSpecImpl;

use crate::sys::{
    b2JointId, b2JointType_b2_distanceJoint, b2JointType_b2_filterJoint,
    b2JointType_b2_motorJoint, b2JointType_b2_mouseJoint, b2JointType_b2_prismaticJoint,
    b2JointType_b2_revoluteJoint, b2JointType_b2_weldJoint, b2JointType_b2_wheelJoint,
};
use crate::world::World;

verus! {

/// Joint id references a joint instance. This should be treated as an opaque handle.
///
/// To do anything with one, hand it back to the world it came from -- see [`World::joint`],
/// which checks that the id names a live joint in that world before giving a [`Joint`] handle.
#[derive(Copy, Clone, Debug, Hash)]
pub struct JointId(pub b2JointId);

impl JointId {
    /// Creates a [`JointId`] from a [`b2JointId`].
    pub fn from_b2(input: b2JointId) -> (r: Self)
        ensures
            r.0 == input,
    {
        JointId(input)
    }
}

impl PartialEq for JointId {
    fn eq(&self, other: &Self) -> (r: bool)
        ensures
            r == (self.0.index1 == other.0.index1 && self.0.world0 == other.0.world0 && self.0.generation == other.0.generation),
    {
        self.0 == other.0
    }
}

impl PartialEqSpecImpl for JointId {
    open spec fn obeys_eq_spec() -> bool {
        true
    }

    open spec fn eq_spec(&self, other: &Self) -> bool {
        self.0 == other.0
    }
}

impl Eq for JointId {}

/// Two joint ids are equal exactly when all of their parts are.
pub proof fn lemma_joint_id_equality(a: JointId, b: JointId)
    ensures
        PartialEqSpec::eq_spec(&a, &b) <==> (a.0.index1 == b.0.index1 && a.0.world0 == b.0.world0
            && a.0.generation == b.0.generation),
        PartialEqSpec::eq_spec(&a, &b) <==> a == b,
{
}

impl From<b2JointId> for JointId {
    fn from(value: b2JointId) -> (r: Self) {
        Self::from_b2(value)
    }
}

impl FromSpecImpl<b2JointId> for JointId {
    open spec fn obeys_from_spec() -> bool {
        true
    }

    open spec fn from_spec(v: b2JointId) -> Self {
        JointId(v)
    }
}

impl From<JointId> for b2JointId {
    fn from(value: JointId) -> (r: Self) {
        value.0
    }
}

impl FromSpecImpl<JointId> for b2JointId {
    open spec fn obeys_from_spec() -> bool {
        true
    }

    open spec fn from_spec(v: JointId) -> Self {
        v.0
    }
}

/// The kind of a joint. All joints share [`JointId`], so this is how you tell them apart.
#[derive(Debug, Copy, Clone, PartialEq, Eq, Hash, Structural)]
pub enum JointKind {
    /// Connects two bodies at a fixed distance, optionally as a spring.
    Distance,
    /// Disables collision between two specific bodies.
    Filter,
    /// Drives the relative transform between two bodies.
    Motor,
    /// Drags a body towards a world-space target. See [`MouseJoint`].
    Mouse,
    /// Allows relative translation along one axis.
    Prismatic,
    /// Allows relative rotation about a shared point.
    Revolute,
    /// Glues two bodies together.
    Weld,
    /// A suspension spring with a rotating wheel.
    Wheel,
}

/// The number by which Box2D names a joint kind.
pub open spec fn joint_kind_number(kind: JointKind) -> u32 {
    match kind {
        JointKind::Distance => b2JointType_b2_distanceJoint,
        JointKind::Filter => b2JointType_b2_filterJoint,
        JointKind::Motor => b2JointType_b2_motorJoint,
        JointKind::Mouse => b2JointType_b2_mouseJoint,
        JointKind::Prismatic => b2JointType_b2_prismaticJoint,
        JointKind::Revolute => b2JointType_b2_revoluteJoint,
        JointKind::Weld => b2JointType_b2_weldJoint,
        JointKind::Wheel => b2JointType_b2_wheelJoint,
    }
}

/// The joint kind that Box2D names by `raw`, if it names one.
pub open spec fn joint_kind_of_number(raw: u32) -> Option<JointKind> {
    if exists|kind: JointKind| joint_kind_number(kind) == raw {
        Some(choose|kind: JointKind| joint_kind_number(kind) == raw)
    } else {
        None
    }
}

impl JointKind {
    /// The number Box2D uses for this kind.
    pub fn to_b2(self) -> (r: u32)
        ensures
            r == joint_kind_number(self),
            self == JointKind::Distance ==> r == 0,
            self == JointKind::Filter ==> r == 1,
            self == JointKind::Motor ==> r == 2,
            self == JointKind::Mouse ==> r == 3,
            self == JointKind::Prismatic ==> r == 4,
            self == JointKind::Revolute ==> r == 5,
            self == JointKind::Weld ==> r == 6,
            self == JointKind::Wheel ==> r == 7,
    {
        match self {
            JointKind::Distance => b2JointType_b2_distanceJoint,
            JointKind::Filter => b2JointType_b2_filterJoint,
            JointKind::Motor => b2JointType_b2_motorJoint,
            JointKind::Mouse => b2JointType_b2_mouseJoint,
            JointKind::Prismatic => b2JointType_b2_prismaticJoint,
            JointKind::Revolute => b2JointType_b2_revoluteJoint,
            JointKind::Weld => b2JointType_b2_weldJoint,
            JointKind::Wheel => b2JointType_b2_wheelJoint,
        }
    }

    /// The kind Box2D reports by the number `raw`, or `None` for a number that names no
    /// joint kind.
    pub fn from_b2(raw: u32) -> (r: Option<JointKind>)
        ensures
            r == joint_kind_of_number(raw),
    {
        if raw == b2JointType_b2_distanceJoint {
            proof {
                lemma_joint_kind_round_trip(JointKind::Distance);
            }
            Some(JointKind::Distance)
        } else if raw == b2JointType_b2_filterJoint {
            proof {
                lemma_joint_kind_round_trip(JointKind::Filter);
            }
            Some(JointKind::Filter)
        } else if raw == b2JointType_b2_motorJoint {
            proof {
                lemma_joint_kind_round_trip(JointKind::Motor);
            }
            Some(JointKind::Motor)
        } else if raw == b2JointType_b2_mouseJoint {
            proof {
                lemma_joint_kind_round_trip(JointKind::Mouse);
            }
            Some(JointKind::Mouse)
        } else if raw == b2JointType_b2_prismaticJoint {
            proof {
                lemma_joint_kind_round_trip(JointKind::Prismatic);
            }
            Some(JointKind::Prismatic)
        } else if raw == b2JointType_b2_revoluteJoint {
            proof {
                lemma_joint_kind_round_trip(JointKind::Revolute);
            }
            Some(JointKind::Revolute)
        } else if raw == b2JointType_b2_weldJoint {
            proof {
                lemma_joint_kind_round_trip(JointKind::Weld);
            }
            Some(JointKind::Weld)
        } else if raw == b2JointType_b2_wheelJoint {
            proof {
                lemma_joint_kind_round_trip(JointKind::Wheel);
            }
            Some(JointKind::Wheel)
        } else {
            assert forall|kind: JointKind| joint_kind_number(kind) != raw by {}
            None
        }
    }
}

/// Every joint kind has its own number, and reading that number back gives the kind again.
pub proof fn lemma_joint_kind_round_trip(kind: JointKind)
    ensures
        joint_kind_of_number(joint_kind_number(kind)) == Some(kind),
{
}

/// Two joint kinds with the same number are the same kind.
pub proof fn lemma_joint_kind_number_injective(a: JointKind, b: JointKind)
    requires
        joint_kind_number(a) == joint_kind_number(b),
    ensures
        a == b,
{
}

/// A live joint in a [`World`], borrowed from it for reading only.
#[derive(Copy, Clone, Debug, PartialEq, Eq, Hash)]
pub struct JointRef<'a> {
    id: b2JointId,
    world: PhantomData<&'a World>,
}

impl<'a> View for JointRef<'a> {
    type V = JointId;

    closed spec fn view(&self) -> JointId {
        JointId(self.id)
    }
}

impl<'a> JointRef<'a> {
    /// A handle for the joint `joint_id`, which its world has just created or vouched for.
    pub fn new(joint_id: JointId) -> (r: Self)
        ensures
            r@ == joint_id,
    {
        JointRef { id: joint_id.0, world: PhantomData }
    }

    /// The raw Box2D id backing this handle.
    pub fn raw(self) -> (r: b2JointId)
        ensures
            r == self@.0,
    {
        self.id
    }

    /// The [`JointId`] naming this joint.
    pub fn id(&self) -> (r: JointId)
        ensures
            r == self@,
    {
        JointId::from_b2(self.id)
    }
}

/// A live joint in a [`World`], borrowed from it for reading and writing. This also has access
/// to all the functions on [`JointRef`] via deref. Functions specific to one kind of joint live
/// on that kind's handle -- see [`Joint::as_mouse`].
#[derive(Copy, Clone, Debug, PartialEq, Eq, Hash)]
pub struct Joint<'a>(JointRef<'a>);

impl<'a> View for Joint<'a> {
    type V = JointId;

    closed spec fn view(&self) -> JointId {
        self.0@
    }
}

impl<'a> Joint<'a> {
    /// A handle for the joint `joint_id`, which its world has just created or vouched for.
    pub fn new(joint_id: JointId) -> (r: Self)
        ensures
            r@ == joint_id,
    {
        Joint(JointRef::new(joint_id))
    }

    /// This joint as a [`MouseJoint`], or `None` if it is some other kind of joint, where `kind`
    /// is the kind Box2D reports for it.
    ///
    /// Box2D only checks the joint kind in a debug assertion, so the typed handle is what keeps
    /// a mouse joint function from being run on some other kind of joint.
    pub fn as_mouse(self, kind: JointKind) -> (r: Option<MouseJoint<'a>>)
        ensures
            r is Some <==> kind == JointKind::Mouse,
            r matches Some(m) ==> m@ == self@,
    {
        if kind == JointKind::Mouse {
            Some(MouseJoint(self))
        } else {
            None
        }
    }
}

impl<'a> core::ops::Deref for Joint<'a> {
    type Target = JointRef<'a>;

    fn deref(&self) -> (r: &JointRef<'a>)
        ensures
            r@ == self@,
    {
        &self.0
    }
}

/// A live mouse joint in a [`World`], borrowed from it for reading and writing.
///
/// A mouse joint drags a point on a body towards a world-space target, using a soft constraint
/// with a maximum force. This also has access to all the functions on [`Joint`] via deref.
#[derive(Copy, Clone, Debug, PartialEq, Eq, Hash)]
pub struct MouseJoint<'a>(Joint<'a>);

impl<'a> View for MouseJoint<'a> {
    type V = JointId;

    closed spec fn view(&self) -> JointId {
        self.0@
    }
}

impl<'a> MouseJoint<'a> {
    /// A handle for the mouse joint `joint_id`, which its world has just created.
    pub fn new(joint_id: JointId) -> (r: Self)
        ensures
            r@ == joint_id,
    {
        MouseJoint(Joint::new(joint_id))
    }
}

impl<'a> core::ops::Deref for MouseJoint<'a> {
    type Target = Joint<'a>;

    fn deref(&self) -> (r: &Joint<'a>)
        ensures
            r@ == self@,
    {
        &self.0
    }
}

/// A joint definition named a body that could not be joined.
#[derive(Debug, Clone, Copy, PartialEq, Eq, Structural)]
pub enum InvalidJointBody {
    /// Body A has been destroyed, or belongs to a different world.
    BodyA,
    /// Body B has been destroyed, or belongs to a different world.
    BodyB,
}

} // verus!
