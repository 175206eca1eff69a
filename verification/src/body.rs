//! Bodies: their kinds, the handles a world lends out for them, and how a body's user data
//! is kept in Box2D's pointer-sized slot.
use core::marker::PhantomData;

use vstd::prelude::*;

use crate::ids::BodyId;
use crate::sys::{
    b2BodyId, b2BodyType_b2_dynamicBody, b2BodyType_b2_kinematicBody, b2BodyType_b2_staticBody,
};
use crate::world::World;

verus! {

/// The kind of a body: how the solver moves it.
#[derive(Debug, Copy, Clone, PartialEq, Eq, Structural)]
pub enum BodyKind {
    /// Positive mass, velocity determined by forces, moved by solver
    Dynamic,
    /// Zero mass, velocity set by user, moved by solver
    Kinematic,
    /// Zero mass, zero velocity, may be manually moved
    Static,
}

/// The number by which Box2D names a body kind.
pub open spec fn body_kind_number(kind: BodyKind) -> u32 {
    match kind {
        BodyKind::Dynamic => b2BodyType_b2_dynamicBody,
        BodyKind::Kinematic => b2BodyType_b2_kinematicBody,
        BodyKind::Static => b2BodyType_b2_staticBody,
    }
}

/// The body kind that Box2D names by `raw`, if it names one.
pub open spec fn body_kind_of_number(raw: u32) -> Option<BodyKind> {
    if exists|kind: BodyKind| body_kind_number(kind) == raw {
        Some(choose|kind: BodyKind| body_kind_number(kind) == raw)
    } else {
        None
    }
}

impl BodyKind {
    /// The number Box2D uses for this kind, as stored in a body definition.
    pub fn to_b2(self) -> (r: u32)
        ensures
            r == body_kind_number(self),
            self == BodyKind::Static ==> r == 0,
            self == BodyKind::Kinematic ==> r == 1,
            self == BodyKind::Dynamic ==> r == 2,
    {
        match self {
            BodyKind::Dynamic => b2BodyType_b2_dynamicBody,
            BodyKind::Kinematic => b2BodyType_b2_kinematicBody,
            BodyKind::Static => b2BodyType_b2_staticBody,
        }
    }

    /// The kind Box2D reports by the number `raw`, or `None` for a number that names no
    /// body kind.
    pub fn from_b2(raw: u32) -> (r: Option<BodyKind>)
        ensures
            r == body_kind_of_number(raw),
    {
        if raw == b2BodyType_b2_dynamicBody {
            proof {
                lemma_body_kind_round_trip(BodyKind::Dynamic);
            }
            Some(BodyKind::Dynamic)
        } else if raw == b2BodyType_b2_kinematicBody {
            proof {
                lemma_body_kind_round_trip(BodyKind::Kinematic);
            }
            Some(BodyKind::Kinematic)
        } else if raw == b2BodyType_b2_staticBody {
            proof {
                lemma_body_kind_round_trip(BodyKind::Static);
            }
            Some(BodyKind::Static)
        } else {
            assert forall|kind: BodyKind| body_kind_number(kind) != raw by {}
            None
        }
    }

    /// Returns if this body matches [`BodyKind::Dynamic`].
    pub fn is_dynamic(self) -> (r: bool)
        ensures
            r == (self == BodyKind::Dynamic),
    {
        self == BodyKind::Dynamic
    }

    /// Returns if this body matches [`BodyKind::Static`].
    pub fn is_static(self) -> (r: bool)
        ensures
            r == (self == BodyKind::Static),
    {
        self == BodyKind::Static
    }

    /// Returns if this body matches [`BodyKind::Kinematic`].
    pub fn is_kinematic(self) -> (r: bool)
        ensures
            r == (self == BodyKind::Kinematic),
    {
        self == BodyKind::Kinematic
    }
}

impl Default for BodyKind {
    /// A body is static unless told otherwise.
    fn default() -> (r: Self)
        ensures
            r == BodyKind::Static,
    {
        BodyKind::Static
    }
}

/// Every body kind has its own number, and reading that number back gives the kind again.
pub proof fn lemma_body_kind_round_trip(kind: BodyKind)
    ensures
        body_kind_of_number(body_kind_number(kind)) == Some(kind),
{
}

/// Two body kinds with the same number are the same kind.
pub proof fn lemma_body_kind_number_injective(a: BodyKind, b: BodyKind)
    requires
        body_kind_number(a) == body_kind_number(b),
    ensures
        a == b,
{
}

/// The pointer-sized value Box2D stores for the user data `data`.
pub open spec fn encoded_user_data(data: u64) -> usize {
    data as usize
}

/// The user data of a body whose Box2D slot holds `stored`: none while the slot is null.
pub open spec fn decoded_user_data(stored: usize) -> Option<u64> {
    if stored == 0 {
        None
    } else {
        Some(stored as u64)
    }
}

impl BodyId {
    /// The pointer-sized value Box2D stores for the user data `data`.
    pub fn encode_user_data(data: u64) -> (r: usize)
        ensures
            r == encoded_user_data(data),
    {
        data as usize
    }

    /// The user data of a body whose Box2D slot holds `stored`: none while the slot is null.
    pub fn decode_user_data(stored: usize) -> (r: Option<u64>)
        ensures
            r == decoded_user_data(stored),
    {
        if stored == 0 {
            None
        } else {
            Some(stored as u64)
        }
    }
}

/// User data that fits in a pointer reads back as it was set, except that zero reads back as
/// no user data at all.
pub proof fn lemma_user_data_round_trip(data: u64)
    requires
        data <= usize::MAX,
    ensures
        decoded_user_data(encoded_user_data(data)) == (if data == 0 {
            None
        } else {
            Some(data)
        }),
{
}

/// A live body in a [`World`], borrowed from it for reading only.
#[derive(Copy, Clone, Debug, PartialEq, Eq, Hash)]
pub struct BodyRef<'a> {
    id: b2BodyId,
    world: PhantomData<&'a World>,
}

impl<'a> View for BodyRef<'a> {
    type V = BodyId;

    closed spec fn view(&self) -> BodyId {
        BodyId(self.id)
    }
}

impl<'a> BodyRef<'a> {
    /// A handle for the body `body_id`, which its world has just created or vouched for.
    pub fn new(body_id: BodyId) -> (r: Self)
        ensures
            r@ == body_id,
    {
        BodyRef { id: body_id.0, world: PhantomData }
    }

    /// The raw Box2D id backing this handle.
    pub fn raw(self) -> (r: b2BodyId)
        ensures
            r == self@.0,
    {
        self.id
    }

    /// The [`BodyId`] naming this body.
    pub fn id(&self) -> (r: BodyId)
        ensures
            r == self@,
    {
        BodyId::from_b2(self.id)
    }
}

/// A live body in a [`World`], borrowed from it for reading and writing. This also has access
/// to all the functions on [`BodyRef`] via deref.
#[derive(Copy, Clone, Debug, PartialEq, Eq, Hash)]
pub struct Body<'a>(BodyRef<'a>);

impl<'a> View for Body<'a> {
    type V = BodyId;

    closed spec fn view(&self) -> BodyId {
        self.0@
    }
}

impl<'a> Body<'a> {
    /// A handle for the body `body_id`, which its world has just created or vouched for.
    pub fn new(body_id: BodyId) -> (r: Self)
        ensures
            r@ == body_id,
    {
        Body(BodyRef::new(body_id))
    }

}

impl<'a> core::ops::Deref for Body<'a> {
    type Target = BodyRef<'a>;

    fn deref(&self) -> (r: &BodyRef<'a>)
        ensures
            r@ == self@,
    {
        &self.0
    }
}

} // verus!
