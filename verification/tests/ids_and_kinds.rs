use oxybox::body::BodyKind;
use oxybox::sys::{b2BodyId, b2JointId, b2ShapeId, b2WorldId};
use oxybox::{BodyId, Filter, JointId, JointKind, ShapeId, ShapeKind, WorldId};

fn body(index1: i32, world0: u16, generation: u16) -> b2BodyId {
    b2BodyId { index1, world0, generation }
}

#[test]
fn raw_ids_are_equal_exactly_when_every_part_is() {
    assert_eq!(body(3, 1, 7), body(3, 1, 7));
    assert_ne!(body(3, 1, 7), body(4, 1, 7));
    assert_ne!(body(3, 1, 7), body(3, 2, 7));
    assert_ne!(body(3, 1, 7), body(3, 1, 8));

    let shape = b2ShapeId { index1: 5, world0: 0, generation: 1 };
    assert_eq!(shape, b2ShapeId { index1: 5, world0: 0, generation: 1 });
    assert_ne!(shape, b2ShapeId { index1: 5, world0: 0, generation: 2 });

    let joint = b2JointId { index1: 2, world0: 3, generation: 1 };
    assert_eq!(joint, b2JointId { index1: 2, world0: 3, generation: 1 });
    assert_ne!(joint, b2JointId { index1: 2, world0: 4, generation: 1 });

    let world = b2WorldId { index1: 1, generation: 1 };
    assert_eq!(world, b2WorldId { index1: 1, generation: 1 });
    assert_ne!(world, b2WorldId { index1: 2, generation: 1 });
    assert_ne!(world, b2WorldId { index1: 1, generation: 2 });
}

#[test]
fn typed_ids_wrap_and_unwrap_their_raw_ids() {
    let raw = body(3, 1, 7);
    let id = BodyId::from_b2(raw);
    assert_eq!(id, BodyId::from(raw));
    assert_eq!(b2BodyId::from(id), raw);
    assert_eq!(id.index1, 3);
    assert_eq!(id.world0, 1);
    assert_ne!(id, BodyId::from_b2(body(3, 1, 8)));

    let raw_shape = b2ShapeId { index1: 9, world0: 2, generation: 4 };
    let shape = ShapeId::from_b2(raw_shape);
    assert_eq!(b2ShapeId::from(shape), raw_shape);
    assert_eq!(shape.generation, 4);

    let raw_joint = b2JointId { index1: 1, world0: 0, generation: 1 };
    let joint = JointId::from_b2(raw_joint);
    assert_eq!(b2JointId::from(joint), raw_joint);
    assert_eq!(joint, JointId::from(raw_joint));

    let raw_world = b2WorldId { index1: 2, generation: 5 };
    let world = WorldId::from_b2(raw_world);
    assert_eq!(b2WorldId::from(world), raw_world);
    assert_eq!(world.index1, 2);
}

#[test]
fn body_kinds_match_box2d_numbers() {
    assert_eq!(BodyKind::Static.to_b2(), 0);
    assert_eq!(BodyKind::Kinematic.to_b2(), 1);
    assert_eq!(BodyKind::Dynamic.to_b2(), 2);
    for kind in [BodyKind::Static, BodyKind::Kinematic, BodyKind::Dynamic] {
        assert_eq!(BodyKind::from_b2(kind.to_b2()), Some(kind));
    }
    assert_eq!(BodyKind::from_b2(3), None);
    assert_eq!(BodyKind::default(), BodyKind::Static);
}

#[test]
fn body_kind_predicates() {
    assert!(BodyKind::Dynamic.is_dynamic());
    assert!(!BodyKind::Dynamic.is_static());
    assert!(!BodyKind::Dynamic.is_kinematic());
    assert!(BodyKind::Static.is_static());
    assert!(!BodyKind::Static.is_dynamic());
    assert!(BodyKind::Kinematic.is_kinematic());
    assert!(!BodyKind::Kinematic.is_static());
}

#[test]
fn joint_kinds_match_box2d_numbers() {
    let kinds = [
        JointKind::Distance,
        JointKind::Filter,
        JointKind::Motor,
        JointKind::Mouse,
        JointKind::Prismatic,
        JointKind::Revolute,
        JointKind::Weld,
        JointKind::Wheel,
    ];
    for (number, kind) in kinds.iter().enumerate() {
        assert_eq!(kind.to_b2(), number as u32);
        assert_eq!(JointKind::from_b2(number as u32), Some(*kind));
    }
    assert_eq!(JointKind::from_b2(8), None);
}

#[test]
fn shape_kinds_match_box2d_numbers() {
    assert_eq!(ShapeKind::Circle.to_b2(), 0);
    assert_eq!(ShapeKind::Polygon.to_b2(), 3);
    assert_eq!(ShapeKind::from_b2(0), Some(ShapeKind::Circle));
    assert_eq!(ShapeKind::from_b2(3), Some(ShapeKind::Polygon));
    // capsules, segments and chain segments are not supported
    assert_eq!(ShapeKind::from_b2(1), None);
    assert_eq!(ShapeKind::from_b2(2), None);
    assert_eq!(ShapeKind::from_b2(4), None);
}

#[test]
fn user_data_reads_back_as_set() {
    assert_eq!(BodyId::encode_user_data(0xBEEF), 0xBEEF);
    assert_eq!(BodyId::decode_user_data(BodyId::encode_user_data(0xBEEF)), Some(0xBEEF));
    assert_eq!(BodyId::decode_user_data(BodyId::encode_user_data(1)), Some(1));
    // zero is what an unset slot holds, so it reads back as no user data
    assert_eq!(BodyId::decode_user_data(BodyId::encode_user_data(0)), None);
    assert_eq!(BodyId::decode_user_data(0), None);
}

#[test]
fn polygon_point_counts() {
    assert_eq!(ShapeId::MAX_POLYGON_POINTS, 8);
    assert!(!ShapeId::accepts_polygon_point_count(0));
    assert!(!ShapeId::accepts_polygon_point_count(2));
    assert!(ShapeId::accepts_polygon_point_count(3));
    assert!(ShapeId::accepts_polygon_point_count(8));
    assert!(!ShapeId::accepts_polygon_point_count(9));
}

#[test]
fn polygons_need_enough_points_and_a_hull() {
    assert!(ShapeId::accepts_polygon(4, 4));
    assert!(ShapeId::accepts_polygon(8, 3));
    // all points on a line, or very close together: the hull is empty
    assert!(!ShapeId::accepts_polygon(4, 0));
    assert!(!ShapeId::accepts_polygon(2, 2));
    assert!(!ShapeId::accepts_polygon(9, 8));
}

#[test]
fn filters_default_to_box2d_values() {
    let filter = Filter::new();
    assert_eq!(filter.category_bits, 1);
    assert_eq!(filter.mask_bits, u64::MAX);
    assert_eq!(filter.group_index, 0);
    assert_eq!(Filter::default(), filter);
}

#[test]
fn filter_overrides_replace_only_what_is_given() {
    let filter = Filter { category_bits: 4, mask_bits: 6, group_index: -2 };
    assert_eq!(filter.with_overrides(None, None), filter);
    assert_eq!(
        filter.with_overrides(Some(0b10), None),
        Filter { category_bits: 0b10, mask_bits: 6, group_index: -2 }
    );
    assert_eq!(
        filter.with_overrides(None, Some(0b10)),
        Filter { category_bits: 4, mask_bits: 0b10, group_index: -2 }
    );
    assert_eq!(
        Filter::new().with_overrides(Some(8), Some(9)),
        Filter { category_bits: 8, mask_bits: 9, group_index: 0 }
    );
}

#[test]
fn ids_are_labelled_world_index_generation() {
    assert_eq!(BodyId::from_b2(body(3, 0, 1)).label(), "0@3v1");
    assert_eq!(BodyId::from_b2(body(1234, 127, 65535)).label(), "127@1234v65535");
    assert_eq!(BodyId::from_b2(body(0, 0, 0)).label(), "0@0v0");
    assert_eq!(BodyId::from_b2(body(-12, 5, 10)).label(), "5@-12v10");
    assert_eq!(BodyId::from_b2(body(i32::MIN, 0, 0)).label(), "0@-2147483648v0");
    assert_eq!(BodyId::from_b2(body(i32::MAX, 0, 0)).label(), "0@2147483647v0");
    let joint = JointId::from_b2(b2JointId { index1: 42, world0: 2, generation: 9 });
    assert_eq!(joint.label(), "2@42v9");
}
