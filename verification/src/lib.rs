//! Handles and the bookkeeping around them for the Box2D physics engine: generational ids,
//! the kinds of bodies, joints and shapes, collision filters, and the checks that decide which
//! ids a world owns and which requests it refuses.
pub mod body;
pub mod ids;
pub mod joint;
pub mod label;
pub mod shape;
pub mod sys;
pub mod world;

pub use body::{Body, BodyKind, BodyRef};
pub use ids::{BodyId, ShapeId, WorldId};
pub use joint::{InvalidJointBody, Joint, JointId, JointKind, JointRef, MouseJoint};
pub use shape::{Filter, Shape, ShapeKind, ShapeRef};
pub use world::{OverlapStats, QueryFilter, TooManyWorlds, World};
