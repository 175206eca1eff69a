use std::sync::{Mutex, PoisonError};

use oxybox::joint::InvalidJointBody;
use oxybox::sys::{b2BodyId, b2JointId, b2ShapeId, b2WorldId};
use oxybox::world::world_lock;
use oxybox::{BodyId, JointId, JointKind, OverlapStats, QueryFilter, ShapeId, TooManyWorlds, World};

/// The world in slot `slot` of Box2D's world array, as Box2D would report it.
fn world_in_slot(slot: u16) -> World {
    World::try_new(b2WorldId { index1: slot + 1, generation: 1 }, true).unwrap()
}

fn body_of(world: &World, index1: i32) -> BodyId {
    BodyId::from_b2(b2BodyId { index1, world0: world.slot(), generation: 1 })
}

fn shape_of(world: &World, index1: i32) -> ShapeId {
    ShapeId::from_b2(b2ShapeId { index1, world0: world.slot(), generation: 1 })
}

fn joint_of(world: &World, index1: i32) -> JointId {
    JointId::from_b2(b2JointId { index1, world0: world.slot(), generation: 1 })
}

#[test]
fn worlds_are_made_only_from_valid_ids() {
    let id = b2WorldId { index1: 4, generation: 2 };
    let world = World::try_new(id, true).unwrap();
    assert_eq!(world.id(), id);
    assert_eq!(world.slot(), 3);
    assert_eq!(World::try_new(id, false).unwrap_err(), TooManyWorlds);
    assert_eq!(World::SUB_STEPS, 4);
}

#[test]
fn the_null_world_id_names_the_last_slot() {
    let world = World::try_new(b2WorldId { index1: 0, generation: 0 }, true).unwrap();
    assert_eq!(world.slot(), u16::MAX);
}

#[test]
fn ids_from_another_world_are_rejected() {
    let owner = world_in_slot(0);
    let other = world_in_slot(1);

    let body_id = body_of(&owner, 1);
    let shape_id = shape_of(&owner, 1);

    // the ids are perfectly valid -- they just do not name anything in `other`
    assert!(other.body(body_id, true).is_none(), "a foreign body id was accepted");
    assert!(other.shape(shape_id, true).is_none(), "a foreign shape id was accepted");
    assert!(!other.owns_body(body_id, true), "a foreign body would be destroyed");

    // and the owning world still hands them out
    assert_eq!(owner.body(body_id, true).unwrap().id(), body_id);
    assert_eq!(owner.shape(shape_id, true).unwrap().id(), shape_id);
}

#[test]
fn destroying_a_body_invalidates_its_handles() {
    let world = world_in_slot(0);
    let body_id = body_of(&world, 1);
    let shape_id = shape_of(&world, 1);

    assert!(world.owns_body(body_id, true), "the body is owned, so destroying it goes ahead");

    // once destroyed, Box2D reports the ids as invalid, and neither handle is handed out again
    assert!(world.body(body_id, false).is_none());
    assert!(world.shape(shape_id, false).is_none());

    // a second destroy is a no-op rather than a double free
    assert!(!world.owns_body(body_id, false));
}

#[test]
fn default_joints_are_rejected() {
    let world = world_in_slot(0);
    // a fresh definition names the null body twice, which Box2D reports as invalid
    let null = BodyId::from_b2(b2BodyId { index1: 0, world0: 0, generation: 0 });
    assert_eq!(world.check_joint_bodies(null, false, null, false), Err(InvalidJointBody::BodyA));
}

#[test]
fn bad_joint_bodies_are_rejected() {
    let world = world_in_slot(0);
    let other = world_in_slot(1);
    let anchor = body_of(&world, 1);
    let ball = body_of(&world, 2);
    let foreign_ball = body_of(&other, 2);

    // a perfectly valid body -- just not one in this world
    assert_eq!(world.check_joint_bodies(anchor, true, foreign_ball, true), Err(InvalidJointBody::BodyB));

    // a body that no longer exists
    assert_eq!(world.check_joint_bodies(anchor, true, ball, false), Err(InvalidJointBody::BodyB));

    // both bodies bad: body A is named
    assert_eq!(world.check_joint_bodies(foreign_ball, true, ball, false), Err(InvalidJointBody::BodyA));

    // two live bodies of this world may be joined
    assert_eq!(world.check_joint_bodies(anchor, true, ball, true), Ok(()));
}

#[test]
fn joint_handles_follow_the_joint() {
    let world = world_in_slot(0);
    let other = world_in_slot(1);
    let joint_id = joint_of(&world, 1);

    // the id comes back out of the world, and remembers what kind of joint it is
    let joint = world.joint(joint_id, true).expect("the joint was just created");
    assert_eq!(joint.as_mouse(JointKind::Mouse).map(|j| j.id()), Some(joint_id));
    assert!(joint.as_mouse(JointKind::Weld).is_none());
    assert!(other.joint(joint_id, true).is_none(), "a foreign joint id was accepted");
    assert!(!other.owns_joint(joint_id, true));

    // destroyed, the joint is invalid, and no handle is handed out
    assert!(world.owns_joint(joint_id, true));
    assert!(world.joint(joint_id, false).is_none());
    assert!(!world.owns_joint(joint_id, false));

    // destroying a body takes its joints with it: Box2D then reports the joint as invalid
    let joint_id = joint_of(&world, 2);
    let ball = body_of(&world, 2);
    assert!(world.owns_body(ball, true));
    assert!(world.joint(joint_id, false).is_none());
}

#[test]
fn contact_events_are_empty_before_stepping() {
    assert!(World::live_begin_touches(&Vec::new()).is_empty());
}

#[test]
fn contact_events_skip_destroyed_shapes() {
    let validity = vec![(true, true), (false, true), (true, false), (true, true), (false, false)];
    assert_eq!(World::live_begin_touches(&validity), vec![0, 3]);
}

#[test]
fn an_overlap_stops_at_the_first_reply() {
    let mut found: Option<u32> = None;
    assert!(World::overlap_reply(&mut found, None));
    assert_eq!(found, None);
    assert!(!World::overlap_reply(&mut found, Some(7)));
    assert_eq!(found, Some(7));
}

#[test]
fn an_overlap_without_a_reply_finds_nothing() {
    let mut found: Option<&str> = None;
    for _ in 0..3 {
        assert!(World::overlap_reply(&mut found, None));
    }
    assert_eq!(found, None);
}

#[test]
fn query_filters_default_to_box2d_values() {
    let filter = QueryFilter::default();
    assert_eq!(filter.category_bits, 1);
    assert_eq!(filter.mask_bits, u64::MAX);
    let stats = OverlapStats { node_visits: 3, leaf_visits: 1 };
    assert_eq!(stats, OverlapStats { node_visits: 3, leaf_visits: 1 });
}

#[test]
fn an_overlap_reports_the_first_shape_the_callback_accepts() {
    let replies = [None, None, Some("second"), Some("third")];
    let mut found = None;
    let mut asked = 0;
    for reply in replies {
        asked += 1;
        if !World::overlap_reply(&mut found, reply) {
            break;
        }
    }
    assert_eq!(found, Some("second"));
    assert_eq!(asked, 3);
}

#[test]
fn the_world_lock_guard_is_taken_from_a_lock() {
    let lock: &'static Mutex<()> = Box::leak(Box::new(Mutex::new(())));
    {
        let _guard = world_lock(lock.lock());
        assert!(lock.try_lock().is_err());
    }
    assert!(lock.try_lock().is_ok());
}

#[test]
fn the_world_lock_guard_is_taken_from_a_poisoned_lock() {
    let lock: &'static Mutex<()> = Box::leak(Box::new(Mutex::new(())));
    {
        let poisoned = PoisonError::new(lock.lock().unwrap());
        let _guard = world_lock(Err(poisoned));
        assert!(lock.try_lock().is_err(), "the guard still holds the lock");
    }
    assert!(lock.try_lock().is_ok());
}
