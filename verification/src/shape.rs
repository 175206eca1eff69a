//! Shapes: their kinds, the handles a world lends out for them, the bounds on a polygon's
//! points, and the collision filter a shape is created with.
use core::marker::PhantomData;

use vstd::prelude::*;

use crate::ids::ShapeId;
use crate::sys::{b2ShapeId, b2ShapeType_b2_circleShape, b2ShapeType_b2_polygonShape};
use crate::world::World;

verus! {

/// The kind of a shape.
#[derive(Debug, Clone, Copy, PartialEq, Eq, Structural)]
pub enum ShapeKind {
    /// A circle with an offset
    Circle,
    /// A convex polygon. Often, this is a rectangle.
    Polygon,
}

/// The number by which Box2D names a shape kind.
pub open spec fn shape_kind_number(kind: ShapeKind) -> u32 {
    match kind {
        ShapeKind::Circle => b2ShapeType_b2_circleShape,
        ShapeKind::Polygon => b2ShapeType_b2_polygonShape,
    }
}

/// The shape kind that Box2D names by `raw`, if it is one this library supports.
pub open spec fn shape_kind_of_number(raw: u32) -> Option<ShapeKind> {
    if exists|kind: ShapeKind| shape_kind_number(kind) == raw {
        Some(choose|kind: ShapeKind| shape_kind_number(kind) == raw)
    } else {
        None
    }
}

impl ShapeKind {
    /// The number Box2D uses for this kind.
    pub fn to_b2(self) -> (r: u32)
        ensures
            r == shape_kind_number(self),
            self == ShapeKind::Circle ==> r == 0,
            self == ShapeKind::Polygon ==> r == 3,
    {
        match self {
            ShapeKind::Circle => b2ShapeType_b2_circleShape,
            ShapeKind::Polygon => b2ShapeType_b2_polygonShape,
        }
    }

    /// The kind Box2D reports by the number `raw`, or `None` for a kind of shape (capsule,
    /// segment, chain segment) that this library does not support.
    pub fn from_b2(raw: u32) -> (r: Option<ShapeKind>)
        ensures
            r == shape_kind_of_number(raw),
    {
        if raw == b2ShapeType_b2_circleShape {
            proof {
                lemma_shape_kind_round_trip(ShapeKind::Circle);
            }
            Some(ShapeKind::Circle)
        } else if raw == b2ShapeType_b2_polygonShape {
            proof {
                lemma_shape_kind_round_trip(ShapeKind::Polygon);
            }
            Some(ShapeKind::Polygon)
        } else {
            assert forall|kind: ShapeKind| shape_kind_number(kind) != raw by {}
            None
        }
    }
}

/// Every shape kind has its own number, and reading that number back gives the kind again.
pub proof fn lemma_shape_kind_round_trip(kind: ShapeKind)
    ensures
        shape_kind_of_number(shape_kind_number(kind)) == Some(kind),
{
}

/// Every number other than a circle's or a polygon's names a kind of shape this library does
/// not support (capsules, segments, chain segments), and is read as no kind at all.
pub proof fn lemma_unsupported_shape_kinds(raw: u32)
    requires
        raw != b2ShapeType_b2_circleShape,
        raw != b2ShapeType_b2_polygonShape,
    ensures
        shape_kind_of_number(raw) is None,
{
    assert forall|kind: ShapeKind| shape_kind_number(kind) != raw by {}
}

impl ShapeId {
    /// The most points a polygon may have.
    pub const MAX_POLYGON_POINTS: usize = 8;

    /// Whether a polygon of `count` points may be attached at all: it needs at least three,
    /// and at most [`ShapeId::MAX_POLYGON_POINTS`].
    pub fn accepts_polygon_point_count(count: usize) -> (r: bool)
        ensures
            r == (3 <= count && count <= Self::MAX_POLYGON_POINTS),
    {
        !(count > Self::MAX_POLYGON_POINTS || count < 3)
    }

    /// Whether a polygon is attached for `point_count` points whose convex hull Box2D computed
    /// with `hull_point_count` points: the points must be accepted, and the hull must not be
    /// empty (all points very close together, or all on a line).
    pub fn accepts_polygon(point_count: usize, hull_point_count: i32) -> (r: bool)
        ensures
            r == (3 <= point_count && point_count <= Self::MAX_POLYGON_POINTS && hull_point_count
                != 0),
    {
        Self::accepts_polygon_point_count(point_count) && hull_point_count != 0
    }
}

/// Limits which shapes collide with this one.
///
/// Two shapes collide when each one's category is in the other's mask. See
/// [`QueryFilter`](crate::QueryFilter) for the equivalent used by world queries.
#[derive(Debug, Clone, Copy, PartialEq, Eq, Structural)]
pub struct Filter {
    /// The collision category bits. Normally you would just set one bit as a bitflag.
    ///
    /// The default value is `1`.
    pub category_bits: u64,
    /// The collision mask bits. This states the categories that this shape would accept for
    /// collision.
    ///
    /// The default value is `u64::MAX`.
    pub mask_bits: u64,
    /// Collision groups allow a certain group of objects to never collide (negative) or always
    /// collide (positive). A group index of zero has no effect.
    ///
    /// **Non-zero group filtering always wins against the mask bits.**
    pub group_index: i32,
}

impl Filter {
    /// Creates a new Filter filled in with the Box2D defaults: category `1`, every mask bit
    /// set, and no group.
    pub fn new() -> (r: Self)
        ensures
            r.category_bits == 1,
            r.mask_bits == u64::MAX,
            r.group_index == 0,
    {
        Filter { category_bits: 1, mask_bits: u64::MAX, group_index: 0 }
    }

    /// This filter with the category and the mask replaced where a shape definition gives
    /// them.
    pub fn with_overrides(self, category: Option<u64>, mask: Option<u64>) -> (r: Self)
        ensures
            r.category_bits == (match category {
                Some(c) => c,
                None => self.category_bits,
            }),
            r.mask_bits == (match mask {
                Some(m) => m,
                None => self.mask_bits,
            }),
            r.group_index == self.group_index,
    {
        let mut filter = self;
        if let Some(category) = category {
            filter.category_bits = category;
        }
        if let Some(mask) = mask {
            filter.mask_bits = mask;
        }
        filter
    }
}

impl Default for Filter {
    fn default() -> (r: Self)
        ensures
            r.category_bits == 1,
            r.mask_bits == u64::MAX,
            r.group_index == 0,
    {
        Self::new()
    }
}

/// A live shape in a [`World`], borrowed from it for reading only.
#[derive(Copy, Clone, Debug, PartialEq, Eq, Hash)]
pub struct ShapeRef<'a> {
    id: b2ShapeId,
    world: PhantomData<&'a World>,
}

impl<'a> View for ShapeRef<'a> {
    type V = ShapeId;

    closed spec fn view(&self) -> ShapeId {
        ShapeId(self.id)
    }
}

impl<'a> ShapeRef<'a> {
    /// A handle for the shape `shape_id`, which its world has just created or vouched for.
    pub fn new(shape_id: ShapeId) -> (r: Self)
        ensures
            r@ == shape_id,
    {
        ShapeRef { id: shape_id.0, world: PhantomData }
    }

    /// The raw Box2D id backing this handle.
    pub fn raw(self) -> (r: b2ShapeId)
        ensures
            r == self@.0,
    {
        self.id
    }

    /// The [`ShapeId`] naming this shape.
    pub fn id(&self) -> (r: ShapeId)
        ensures
            r == self@,
    {
        ShapeId::from_b2(self.id)
    }
}

/// A live shape in a [`World`], borrowed from it for reading and writing. This also has access
/// to all the functions on [`ShapeRef`] via deref.
#[derive(Copy, Clone, Debug, PartialEq, Eq, Hash)]
pub struct Shape<'a>(ShapeRef<'a>);

impl<'a> View for Shape<'a> {
    type V = ShapeId;

    closed spec fn view(&self) -> ShapeId {
        self.0@
    }
}

impl<'a> Shape<'a> {
    /// A handle for the shape `shape_id`, which its world has just created or vouched for.
    pub fn new(shape_id: ShapeId) -> (r: Self)
        ensures
            r@ == shape_id,
    {
        Shape(ShapeRef::new(shape_id))
    }

}

impl<'a> core::ops::Deref for Shape<'a> {
    type Target = ShapeRef<'a>;

    fn deref(&self) -> (r: &ShapeRef<'a>)
        ensures
            r@ == self@,
    {
        &self.0
    }
}

} // verus!
