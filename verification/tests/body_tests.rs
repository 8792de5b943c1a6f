use float_cmp::ApproxEq;
use matter_core::base::collision_filter::CollisionFilter;
use matter_core::base::common::ShapeType;
use matter_core::base::constraint_impulse::ConstraintImpulse;
use matter_core::base::force::Force;
use matter_core::base::position::Position;
use matter_core::base::render::Render;
use matter_core::base::sprite::Sprite;
use matter_core::base::velocity::Velocity;
use matter_core::base::xy::{XYNew, XY};
use matter_core::body::body::Body;
use matter_core::body::body_option::BodyOption;
use matter_core::body::body_original::BodyOriginal;
use matter_core::body::body_properties::BodyProperties;
use matter_core::geometry::axes::Axes;
use matter_core::geometry::bounds::{Bounds, BoundsPart};
use matter_core::geometry::vector::Vector;
use matter_core::geometry::vertex::Vertex;
use matter_core::geometry::vertices::Vertices;
use matter_core::scalar::Scalar;

fn scalar(value: f64) -> Scalar {
    Scalar::from_bits(value.to_bits())
}

fn float(value: Scalar) -> f64 {
    f64::from_bits(value.to_bits())
}

fn assert_float(result: Scalar, expected: f64) {
    assert!(
        float(result).approx_eq(expected, (0.0, 2)),
        "result: {} did not match expected: {}",
        float(result),
        expected
    );
}

fn assert_xy(result: &impl XY, expected_x: f64, expected_y: f64) {
    assert_float(result.get_x(), expected_x);
    assert_float(result.get_y(), expected_y);
}

fn test_bounds() -> Bounds {
    Bounds {
        min: BoundsPart { x: scalar(100.0), y: scalar(150.0) },
        max: BoundsPart { x: scalar(200.0), y: scalar(250.0) },
    }
}

fn test_square(shift: f64) -> Vec<Vector> {
    [(1.0, 1.0), (3.0, 1.0), (3.0, 3.0), (1.0, 3.0)]
        .iter()
        .map(|(x, y): &(f64, f64)| Vector::create(scalar(*x + shift), scalar(*y + shift)))
        .collect()
}

/// The body that the tests work on, without its parts; `increase` is what
/// tells a part from the body itself.
fn test_content(increase: f64) -> Body {
    let mut body = Body::default_body();
    body.set_angle_prop(scalar(42. + increase));
    body.set_angle_prev(scalar(41. + increase));
    body.set_position_prop(&Position::new(scalar(2.), scalar(2.)));
    body.set_position_prev(&Position::new(scalar(1.), scalar(1.)));
    body.set_bounds(&test_bounds());
    body.set_velocity_prop(&Velocity::new(scalar(42.), scalar(42.)));
    body.set_density_prop(scalar(1.1 + increase));
    body.set_time_scale(93);
    body.set_delta_time(scalar(3.2));
    body.set_friction_air(scalar(9.7));
    body.set_force(&Force::new(scalar(69.), scalar(79.)));
    body.set_mass_prop(scalar(88.));
    body.set_torque(scalar(52.));
    body.set_inertia_prop(scalar(32.));
    body.set_angular_velocity_prop(scalar(12.));
    body.set_resitution(scalar(69. + increase));
    body.set_friction(scalar(666. + increase));
    body.set_inverse_inertia(scalar(16. + increase));
    body.set_inverse_mass(scalar(17. + increase));
    body.set_area(scalar(1600.));
    body.set_vertices_prop(&Vertices::new(test_square(increase), None));
    let axes = vec![
        Vertex::new(None, scalar(1. + increase), scalar(1. + increase), 0, false),
        Vertex::new(None, scalar(-1. - increase), scalar(-1. - increase), 1, false),
    ];
    body.set_axes(&Axes::new(&axes));
    body
}

fn test_body() -> Body {
    let mut body = test_content(0.);
    let parts = [1., 2.]
        .iter()
        .map(|increase| {
            let mut part = test_content(*increase);
            part.set_position_prop(&Position::new(scalar(*increase), scalar(*increase)));
            part
        })
        .collect();
    body.set_parts_prop(parts);
    body
}

#[test]
fn set_one_should_be_able_mutate_one_value_based_on_provided_option() {
    // Arrange
    let mut body = test_body();
    let option = BodyOption::Area(scalar(83.));

    // Act
    body.set_one(&option);

    // Assert
    assert_float(body.get_area(), 83.)
}

#[test]
fn set_static_should_be_able_to_set_a_default_body_to_static() {
    // Arrange
    let mut body = test_body();
    let is_static = true;

    // Act
    body.set_static(is_static);

    // Assert
    let part = body.get_parts()[0];
    let original = part.get_original().unwrap();
    assert_float(part.get_resitution(), 0.);
    assert_float(part.get_friction(), 1.);
    assert_float(part.get_mass(), f64::INFINITY);
    assert_float(part.get_inertia(), f64::INFINITY);
    assert_float(part.get_density(), f64::INFINITY);
    assert_float(part.get_inverse_mass(), 0.);
    assert_xy(&part.get_position(), 2., 2.);
    assert_float(part.get_angle_prev(), 42.);
    assert_float(part.get_angular_velocity_prop(), 0.);
    assert_float(part.get_speed_prop(), 0.);
    assert_float(part.get_angular_speed_prop(), 0.);
    assert_float(part.get_motion(), 0.);
    assert_float(original.get_resitution(), 69.);
    assert_float(original.get_friction(), 666.);
    assert_float(original.get_mass(), 88.);
    assert_float(original.get_inertia(), 32.);
    assert_float(original.get_inverse_inertia(), 16.);
    assert_float(original.get_inverse_mass(), 17.);
    assert_float(original.get_density(), 1.1);

    let part = body.get_parts()[1];
    let original = part.get_original().unwrap();
    assert_float(part.get_resitution(), 0.);
    assert_float(part.get_friction(), 1.);
    assert_float(part.get_mass(), f64::INFINITY);
    assert_float(part.get_inertia(), f64::INFINITY);
    assert_float(part.get_density(), f64::INFINITY);
    assert_float(part.get_inverse_mass(), 0.);
    assert_xy(&part.get_position(), 1., 1.);
    assert_float(part.get_angle_prev(), 43.);
    assert_float(part.get_angular_velocity_prop(), 0.);
    assert_float(part.get_speed_prop(), 0.);
    assert_float(part.get_angular_speed_prop(), 0.);
    assert_float(part.get_motion(), 0.);
    assert_float(original.get_density(), 2.1);
    assert_float(original.get_friction(), 667.);
    assert_float(original.get_inertia(), 32.);
    assert_float(original.get_inverse_inertia(), 17.);
    assert_float(original.get_inverse_mass(), 18.);
    assert_float(original.get_mass(), 88.);
    assert_float(original.get_resitution(), 70.);

    let part = body.get_parts()[2];
    let original = part.get_original().unwrap();
    assert_float(part.get_resitution(), 0.);
    assert_float(part.get_friction(), 1.);
    assert_float(part.get_mass(), f64::INFINITY);
    assert_float(part.get_inertia(), f64::INFINITY);
    assert_float(part.get_density(), f64::INFINITY);
    assert_float(part.get_inverse_mass(), 0.);
    assert_xy(&part.get_position(), 2., 2.);
    assert_float(part.get_angle_prev(), 44.);
    assert_float(part.get_angular_velocity_prop(), 0.);
    assert_float(part.get_speed_prop(), 0.);
    assert_float(part.get_angular_speed_prop(), 0.);
    assert_float(part.get_motion(), 0.);
    assert_float(original.get_density(), 3.1);
    assert_float(original.get_friction(), 668.);
    assert_float(original.get_inertia(), 32.);
    assert_float(original.get_inverse_inertia(), 18.);
    assert_float(original.get_inverse_mass(), 19.);
    assert_float(original.get_mass(), 88.);
    assert_float(original.get_resitution(), 71.);
}

#[test]
fn set_static_should_freeze_the_place_and_the_angle() {
    let mut body = test_body();

    body.set_static(true);

    for part in body.get_parts() {
        assert_eq!(part.get_is_static(), true);
        let place = part.get_position();
        let last_place = part.get_position_prev().unwrap();
        assert_eq!(last_place.get_x().to_bits(), place.get_x().to_bits());
        assert_eq!(last_place.get_y().to_bits(), place.get_y().to_bits());
        assert_eq!(part.get_angle_prev().to_bits(), part.get_angle().to_bits());
        assert_float(part.get_inverse_inertia(), 0.);
    }
}

#[test]
fn set_static_should_restore_a_body_that_is_set_free_again() {
    let mut body = test_body();
    let before: Vec<BodyOriginal> =
        body.get_parts().iter().map(|part| BodyOriginal::from(part)).collect();

    body.set_static(true);
    body.set_static(false);

    let parts = body.get_parts();
    assert_eq!(parts.len(), 3);
    for (part, before) in parts.iter().zip(before.iter()) {
        assert_eq!(part.get_is_static(), false);
        assert!(part.get_original().is_none());
        assert_eq!(part.get_density().to_bits(), before.get_density().to_bits());
        assert_eq!(part.get_friction().to_bits(), before.get_friction().to_bits());
        assert_eq!(part.get_mass().to_bits(), before.get_mass().to_bits());
        assert_eq!(part.get_inertia().to_bits(), before.get_inertia().to_bits());
        assert_eq!(part.get_inverse_mass().to_bits(), before.get_inverse_mass().to_bits());
        assert_eq!(part.get_inverse_inertia().to_bits(), before.get_inverse_inertia().to_bits());
        assert_eq!(part.get_resitution().to_bits(), before.get_resitution().to_bits());
    }
    assert_float(parts[0].get_density(), 1.1);
    assert_float(parts[1].get_friction(), 667.);
    assert_float(parts[2].get_inverse_mass(), 19.);
}

#[test]
fn set_static_should_leave_a_body_that_was_not_frozen_as_it_is_when_set_free() {
    let mut body = test_body();

    body.set_static(false);

    for (index, part) in body.get_parts().iter().enumerate() {
        assert_eq!(part.get_is_static(), false);
        assert!(part.get_original().is_none());
        assert_float(part.get_mass(), 88.);
        assert_float(part.get_resitution(), 69. + index as f64);
        assert_float(part.get_angle_prev(), 41. + index as f64);
        assert_float(part.get_angular_velocity_prop(), 12.);
    }
}

#[test]
fn set_static_should_keep_what_is_frozen_when_frozen_twice() {
    let mut body = test_content(0.);

    body.set_static(true);
    body.set_static(true);

    let original = body.get_original().unwrap();
    assert_float(original.get_mass(), f64::INFINITY);
    assert_float(original.get_friction(), 1.);
    assert_float(original.get_resitution(), 0.);

    body.set_static(false);

    assert_eq!(body.get_is_static(), false);
    assert_float(body.get_mass(), f64::INFINITY);
    assert_float(body.get_friction(), 1.);
}

#[test]
fn default_body_should_start_at_rest_as_a_square() {
    let body = Body::default_body();

    assert_float(body.get_angle(), 0.);
    assert_float(body.get_angle_prev(), 0.);
    assert_float(body.get_angular_speed_prop(), 0.);
    assert_float(body.get_angular_velocity_prop(), 0.);
    assert_float(body.get_area(), 0.);
    assert!(body.get_axes().is_none());
    assert!(body.get_bounds().is_none());
    assert!(body.get_chamfer().is_none());
    assert!(body.get_circle_radius().is_none());
    assert_eq!(body.get_collision_filter().get_category(), 1);
    assert_eq!(body.get_collision_filter().get_mask(), u32::MAX);
    assert_eq!(body.get_collision_filter().get_group(), 0);
    assert_xy(&body.get_constraint_impulse(), 0., 0.);
    assert_float(body.get_constraint_impulse().get_angle(), 0.);
    assert_float(body.get_delta_time().unwrap(), 1000. / 60.);
    assert_float(body.get_density(), 0.001);
    assert_xy(&body.get_force(), 0., 0.);
    assert_float(body.get_friction_air(), 0.01);
    assert_float(body.get_friction_static(), 0.5);
    assert_float(body.get_friction(), 0.1);
    assert_float(body.get_inertia(), 0.);
    assert_float(body.get_inverse_inertia(), 0.);
    assert_float(body.get_inverse_mass(), 0.);
    assert_eq!(body.get_is_sensor(), false);
    assert_eq!(body.get_is_sleeping(), false);
    assert_eq!(body.get_is_static(), false);
    assert_float(body.get_mass(), 0.);
    assert_float(body.get_motion(), 0.);
    assert!(body.get_original().is_none());
    assert!(body.get_parent().is_none());
    assert_xy(&body.get_position_impulse(), 0., 0.);
    assert!(body.get_position_prev().is_none());
    assert_xy(&body.get_position(), 0., 0.);
    assert_eq!(body.get_render().get_visible(), true);
    assert_float(body.get_render().get_opacity(), 1.);
    assert_float(body.get_render().get_sprite().get_x_scale(), 1.);
    assert_float(body.get_render().get_sprite().get_y_scale(), 1.);
    assert_float(body.get_render().get_sprite().get_x_offset(), 0.);
    assert_float(body.get_render().get_sprite().get_y_offset(), 0.);
    assert_float(body.get_resitution(), 0.);
    assert!(matches!(body.get_shape_type(), ShapeType::Body));
    assert_eq!(body.get_sleep_threshold(), 60);
    assert_float(body.get_slop(), 0.05);
    assert_float(body.get_speed_prop(), 0.);
    assert_eq!(body.get_time_scale(), 1);
    assert_float(body.get_torque(), 0.);
    assert_eq!(body.get_total_contacts(), 0);
    assert_xy(&body.get_velocity_prop(), 0., 0.);

    let vertices = body.get_vertices();
    assert_eq!(vertices.len(), 4);
    assert_xy(&vertices[0], 0., 0.);
    assert_xy(&vertices[1], 40., 0.);
    assert_xy(&vertices[2], 40., 40.);
    assert_xy(&vertices[3], 0., 40.);
    for index in 0..4 {
        assert_eq!(vertices[index].get_body(), Some(body.get_id()));
        assert_eq!(vertices[index].get_index(), index);
        assert_eq!(vertices[index].get_is_internal(), false);
    }
    assert_eq!(body.get_parts().len(), 1);
}

#[test]
fn with_id_should_make_the_default_body_of_that_id() {
    let body = Body::with_id(17);

    assert_eq!(body.get_id(), 17);
    assert_float(body.get_density(), 0.001);
    assert_float(body.get_friction(), 0.1);
    assert_eq!(body.get_is_static(), false);
    assert!(body.get_parent().is_none());
    let vertices = body.get_vertices();
    assert_eq!(vertices.len(), 4);
    assert_xy(&vertices[2], 40., 40.);
    for index in 0..4 {
        assert_eq!(vertices[index].get_body(), Some(17));
    }
    assert_eq!(Body::with_id(17).is_part_parent(&body), true);
    assert_eq!(Body::with_id(18).is_part_parent(&body), false);
}

#[test]
fn default_body_should_give_every_body_an_id_of_its_own() {
    let first = Body::default_body();
    let second = Body::default_body();

    assert_ne!(first.get_id(), second.get_id());
    assert_eq!(first.is_part_parent(&second), false);
    assert_eq!(first.is_part_parent(&first.clone()), true);
}

#[test]
fn get_parts_should_begin_with_the_body_itself() {
    let body = test_body();

    let parts = body.get_parts();

    assert_eq!(parts.len(), 3);
    assert_eq!(parts[0].get_id(), body.get_id());
    assert_xy(&parts[0].get_position(), 2., 2.);
    assert_xy(&parts[1].get_position(), 1., 1.);
    assert_xy(&parts[2].get_position(), 2., 2.);
    assert_float(parts[1].get_density(), 2.1);
    assert_float(parts[2].get_density(), 3.1);
}

#[test]
fn get_total_parts_should_leave_the_body_out_where_it_has_parts() {
    let body = test_body();

    let parts = body.get_total_parts();

    assert_eq!(parts.len(), 2);
    assert_float(parts[0].get_density(), 2.1);
    assert_float(parts[1].get_density(), 3.1);
}

#[test]
fn get_total_parts_should_be_the_body_alone_where_it_has_no_parts() {
    let mut body = test_content(0.);

    assert_eq!(body.get_total_parts().len(), 1);
    assert_eq!(body.get_total_parts()[0].get_id(), body.get_id());

    body.set_parts_prop(Vec::new());

    assert_eq!(body.get_parts().len(), 1);
    assert_eq!(body.get_total_parts().len(), 1);
    assert_eq!(body.get_total_parts()[0].get_id(), body.get_id());
}

#[test]
fn get_weight_should_count_an_infinite_mass_as_one() {
    let mut body = test_content(0.);

    assert_float(body.get_weight(), 88.);

    body.set_mass_prop(scalar(f64::INFINITY));
    assert_float(body.get_weight(), 1.);

    body.set_mass_prop(scalar(f64::NEG_INFINITY));
    assert_float(body.get_weight(), f64::NEG_INFINITY);

    body.set_mass_prop(scalar(0.));
    assert_float(body.get_weight(), 0.);

    body.set_mass_prop(scalar(f64::NAN));
    assert!(float(body.get_weight()).is_nan());

    body.set_static(true);
    assert_float(body.get_weight(), 1.);
}

/// The totals of a body: which bodies count and what each weighs is the
/// library's to say, the sums are made here.
fn total_properties(body: &Body) -> BodyProperties {
    let mut mass = 0.;
    let mut area = 0.;
    let mut inertia = 0.;
    let mut centre = (0., 0.);
    for part in body.get_total_parts() {
        let weight = float(part.get_weight());
        mass += weight;
        area += float(part.get_area());
        inertia += float(part.get_inertia());
        centre.0 += float(part.get_position().get_x()) * weight;
        centre.1 += float(part.get_position().get_y()) * weight;
    }
    BodyProperties::new(
        scalar(mass),
        scalar(area),
        scalar(inertia),
        Position::new(scalar(centre.0 / mass), scalar(centre.1 / mass)),
    )
}

fn weighed_content(increase: f64) -> Body {
    let mut body = Body::default_body();
    body.set_mass_prop(scalar(1.6 + increase));
    body.set_area(scalar(1600. + increase));
    body.set_inertia_prop(scalar(1706.6666666666667 + increase));
    body
}

#[test]
fn total_properties_should_sum_the_properties_of_all_compound_parts_of_the_given_body() {
    // Arrange
    let mut body = weighed_content(0.);
    let parts = [2., 3., 4., 5.]
        .iter()
        .map(|increase| {
            let mut part = weighed_content(*increase);
            part.set_angle_prop(scalar(*increase));
            part.set_position_prop(&Position::new(scalar(*increase), scalar(*increase)));
            part
        })
        .collect();
    body.set_parts_prop(parts);

    // Act
    let result = total_properties(&body);

    // Assert
    assert_float(result.get_area(), 6414.);
    assert_xy(&result.get_centre(), 3.7450980392156867, 3.7450980392156867);
    assert_float(result.get_inertia(), 6840.666666666667);
    assert_float(result.get_mass(), 20.4);
}

#[test]
fn total_properties_should_be_those_of_a_body_without_parts() {
    let mut body = weighed_content(0.);
    body.set_position_prop(&Position::new(scalar(3.), scalar(4.)));

    let result = total_properties(&body);

    assert_float(result.get_mass(), 1.6);
    assert_float(result.get_area(), 1600.);
    assert_float(result.get_inertia(), 1706.6666666666667);
    assert_xy(&result.get_centre(), 3., 4.);
}

#[test]
fn total_properties_should_count_a_frozen_part_as_one() {
    let mut body = weighed_content(0.);
    let mut frozen = weighed_content(2.);
    frozen.set_position_prop(&Position::new(scalar(10.), scalar(0.)));
    frozen.set_static(true);
    let mut free = weighed_content(1.4);
    free.set_position_prop(&Position::new(scalar(0.), scalar(10.)));
    body.set_parts_prop(vec![frozen, free]);

    let result = total_properties(&body);

    assert_float(result.get_mass(), 4.);
    assert_xy(&result.get_centre(), 2.5, 7.5);
}

#[test]
fn attach_parts_should_make_the_body_the_parent_of_its_parts() {
    let mut body = test_content(0.);
    let parts = vec![test_content(1.), test_content(2.)];
    let ids: Vec<u128> = parts.iter().map(|part| part.get_id()).collect();

    let attached = body.attach_parts(parts);

    assert_eq!(attached, true);
    let parts = body.get_parts();
    assert_eq!(parts.len(), 3);
    assert!(parts[0].get_parent().is_none());
    assert_eq!(parts[1].get_parent(), Some(body.get_id()));
    assert_eq!(parts[2].get_parent(), Some(body.get_id()));
    assert_eq!(parts[1].get_id(), ids[0]);
    assert_eq!(parts[2].get_id(), ids[1]);
    assert_float(parts[1].get_density(), 2.1);
}

#[test]
fn attach_parts_should_change_nothing_without_parts() {
    let mut body = test_body();

    let attached = body.attach_parts(Vec::new());

    assert_eq!(attached, false);
    assert_eq!(body.get_parts().len(), 3);
    assert_float(body.get_parts()[2].get_density(), 3.1);
}

#[test]
fn adopt_vertices_should_make_the_body_the_owner_of_every_corner() {
    let mut body = test_content(0.);
    let vertices = Vertices::new(test_square(5.), Some(1));

    body.adopt_vertices(&vertices);

    let adopted = body.get_vertices();
    assert_eq!(adopted.len(), 4);
    for index in 0..4 {
        assert_eq!(adopted[index].get_body(), Some(body.get_id()));
        assert_eq!(adopted[index].get_index(), index);
    }
    assert_xy(&adopted[2], 8., 8.);
    assert_eq!(vertices[0].get_body(), Some(1));
}

#[test]
fn take_parts_should_hand_the_parts_out() {
    let mut body = test_body();

    let parts = body.take_parts().unwrap();

    assert_eq!(parts.len(), 2);
    assert_float(parts[0].get_density(), 2.1);
    assert_eq!(body.get_parts().len(), 1);
    assert!(body.take_parts().is_none());
}

#[test]
fn clone_should_copy_a_body_with_its_parts() {
    let mut body = test_body();
    body.set_static(true);
    body.set_chamfer(&vec![Vector::create(scalar(1.), scalar(2.))]);

    let copy = body.clone();
    body.set_static(false);

    assert_eq!(copy.get_id(), body.get_id());
    assert_eq!(copy.get_is_static(), true);
    assert_eq!(copy.get_parts().len(), 3);
    assert_eq!(copy.get_parts()[1].get_is_static(), true);
    assert_float(copy.get_parts()[2].get_original().unwrap().get_density(), 3.1);
    assert_float(copy.get_mass(), f64::INFINITY);
    assert_xy(&copy.get_vertices()[2], 3., 3.);
    assert_xy(&copy.get_axes().unwrap()[1], -1., -1.);
    assert_xy(&copy.get_chamfer().unwrap()[0], 1., 2.);
    assert_float(copy.get_bounds().unwrap().max.x, 200.);
    assert_eq!(body.get_is_static(), false);
}

#[test]
fn setters_should_write_what_the_getters_read() {
    let mut body = Body::default_body();

    body.set_parent(77);
    body.set_speed_prop(scalar(1.5));
    body.set_angular_speed_prop(scalar(2.5));
    body.set_circle_radius(scalar(3.5));
    body.set_collision_filter(&CollisionFilter::new(2, 3, 4));
    body.set_constraint_impulse(&ConstraintImpulse::new(scalar(1.), scalar(2.), scalar(3.)));
    body.set_friction_static(scalar(4.5));
    body.set_is_sensor(true);
    body.set_is_sleeping(true);
    body.set_motion(scalar(5.5));
    body.set_position_impulse(&Position::new(scalar(6.), scalar(7.)));
    body.set_render(&Render::new(
        false,
        scalar(0.5),
        Sprite::new(scalar(2.), scalar(3.), scalar(4.), scalar(5.)),
    ));
    body.set_shape_type(&ShapeType::Body);
    body.set_sleep_threshold(61);
    body.set_slop(scalar(6.5));
    body.set_total_contacts(9);

    assert_eq!(body.get_parent(), Some(77));
    assert_float(body.get_speed_prop(), 1.5);
    assert_float(body.get_angular_speed_prop(), 2.5);
    assert_float(body.get_circle_radius().unwrap(), 3.5);
    assert_eq!(body.get_collision_filter().get_category(), 2);
    assert_eq!(body.get_collision_filter().get_mask(), 3);
    assert_eq!(body.get_collision_filter().get_group(), 4);
    assert_xy(&body.get_constraint_impulse(), 1., 2.);
    assert_float(body.get_constraint_impulse().get_angle(), 3.);
    assert_float(body.get_friction_static(), 4.5);
    assert_eq!(body.get_is_sensor(), true);
    assert_eq!(body.get_is_sleeping(), true);
    assert_float(body.get_motion(), 5.5);
    assert_xy(&body.get_position_impulse(), 6., 7.);
    assert_eq!(body.get_render().get_visible(), false);
    assert_float(body.get_render().get_opacity(), 0.5);
    assert_float(body.get_render().get_sprite().get_y_offset(), 5.);
    assert_eq!(body.get_sleep_threshold(), 61);
    assert_float(body.get_slop(), 6.5);
    assert_eq!(body.get_total_contacts(), 9);

    body.clear_circle_radius();
    assert!(body.get_circle_radius().is_none());
}

#[test]
fn test_body_should_hold_what_it_was_given() {
    let body = test_body();

    assert_float(body.get_angle(), 42.);
    assert_float(body.get_angle_prev(), 41.);
    assert_xy(&body.get_position(), 2., 2.);
    assert_xy(&body.get_position_prev().unwrap(), 1., 1.);
    assert_xy(&body.get_velocity_prop(), 42., 42.);
    assert_float(body.get_density(), 1.1);
    assert_eq!(body.get_time_scale(), 93);
    assert_float(body.get_delta_time().unwrap(), 3.2);
    assert_float(body.get_friction_air(), 9.7);
    assert_xy(&body.get_force(), 69., 79.);
    assert_float(body.get_mass(), 88.);
    assert_float(body.get_torque(), 52.);
    assert_float(body.get_inertia(), 32.);
    assert_float(body.get_angular_velocity_prop(), 12.);
    assert_float(body.get_resitution(), 69.);
    assert_float(body.get_friction(), 666.);
    assert_float(body.get_inverse_inertia(), 16.);
    assert_float(body.get_inverse_mass(), 17.);
    assert_float(body.get_area(), 1600.);
    assert_xy(&body.get_vertices()[1], 3., 1.);
    assert_xy(&body.get_axes().unwrap()[0], 1., 1.);
    assert_float(body.get_bounds().unwrap().min.y, 150.);
}

#[test]
fn record_position_change_should_show_a_move_as_velocity_where_asked() {
    let mut body = test_content(0.);

    body.record_position_change(
        true,
        &Velocity::new(scalar(3.), scalar(4.)),
        scalar(5.),
        &Position::new(scalar(4.), scalar(5.)),
    );

    assert_xy(&body.get_position_prev().unwrap(), 2., 2.);
    assert_xy(&body.get_velocity_prop(), 3., 4.);
    assert_float(body.get_speed_prop(), 5.);
    assert_xy(&body.get_position(), 2., 2.);
}

#[test]
fn record_position_change_should_take_the_last_place_along_otherwise() {
    let mut body = test_content(0.);

    body.record_position_change(
        false,
        &Velocity::new(scalar(3.), scalar(4.)),
        scalar(5.),
        &Position::new(scalar(4.), scalar(5.)),
    );

    assert_xy(&body.get_position_prev().unwrap(), 4., 5.);
    assert_xy(&body.get_velocity_prop(), 42., 42.);
    assert_float(body.get_speed_prop(), 0.);
    assert_xy(&body.get_position(), 2., 2.);
}

#[test]
fn record_angle_change_should_show_a_turn_as_angular_velocity_where_asked() {
    let mut body = test_content(0.);

    body.record_angle_change(true, scalar(-1.5), scalar(39.5));

    assert_float(body.get_angle_prev(), 42.);
    assert_float(body.get_angular_velocity_prop(), -1.5);
    assert_float(body.get_angular_speed_prop(), 1.5);
    assert_float(body.get_angle(), 42.);
}

#[test]
fn record_angle_change_should_take_the_last_angle_along_otherwise() {
    let mut body = test_content(0.);

    body.record_angle_change(false, scalar(-1.5), scalar(39.5));

    assert_float(body.get_angle_prev(), 39.5);
    assert_float(body.get_angular_velocity_prop(), 12.);
    assert_float(body.get_angle(), 42.);
}

#[test]
fn record_step_should_keep_the_state_before_the_step_as_the_last_state() {
    let mut body = test_content(0.);

    body.record_step(
        scalar(16.),
        &Velocity::new(scalar(1.), scalar(2.)),
        &Position::new(scalar(3.), scalar(4.)),
        scalar(0.5),
        scalar(42.5),
    );

    assert_xy(&body.get_position_prev().unwrap(), 2., 2.);
    assert_xy(&body.get_position(), 3., 4.);
    assert_xy(&body.get_velocity_prop(), 1., 2.);
    assert_float(body.get_delta_time().unwrap(), 16.);
    assert_float(body.get_angle_prev(), 42.);
    assert_float(body.get_angle(), 42.5);
    assert_float(body.get_angular_velocity_prop(), 0.5);
    assert_float(body.get_mass(), 88.);
}

#[test]
fn scale_circle_radius_should_keep_a_circle_that_is_scaled_alike() {
    let mut body = test_content(0.);
    body.set_circle_radius(scalar(37.));

    body.scale_circle_radius(scalar(93.), scalar(93.), scalar(37. * 93.));

    assert_float(body.get_circle_radius().unwrap(), 3441.);
}

#[test]
fn scale_circle_radius_should_forget_the_radius_of_what_is_no_circle_any_more() {
    let mut body = test_content(0.);
    body.set_circle_radius(scalar(37.));

    body.scale_circle_radius(scalar(93.), scalar(94.), scalar(37. * 93.));

    assert!(body.get_circle_radius().is_none());

    body.set_circle_radius(scalar(37.));
    body.scale_circle_radius(scalar(f64::NAN), scalar(f64::NAN), scalar(1.));
    assert!(body.get_circle_radius().is_none());
}

#[test]
fn scale_circle_radius_should_give_no_radius_to_what_had_none() {
    let mut body = test_content(0.);

    body.scale_circle_radius(scalar(2.), scalar(2.), scalar(74.));

    assert!(body.get_circle_radius().is_none());
}

#[test]
fn set_one_should_set_each_property_that_stands_alone() {
    let mut body = test_body();

    body.set_one(&BodyOption::ShapeType(ShapeType::Body));
    body.set_one(&BodyOption::Force(Force::new(scalar(1.), scalar(2.))));
    body.set_one(&BodyOption::Torque(scalar(3.)));
    body.set_one(&BodyOption::PositionImpulse(Position::new(scalar(4.), scalar(5.))));
    body.set_one(&BodyOption::ConstraintImpulse(ConstraintImpulse::new(
        scalar(6.),
        scalar(7.),
        scalar(8.),
    )));
    body.set_one(&BodyOption::TotalContracts(9));
    body.set_one(&BodyOption::IsSensor(true));
    body.set_one(&BodyOption::IsSleeping(true));
    body.set_one(&BodyOption::Motion(scalar(10.)));
    body.set_one(&BodyOption::SleepThreshold(11));
    body.set_one(&BodyOption::Resitution(scalar(12.)));
    body.set_one(&BodyOption::Friction(scalar(13.)));
    body.set_one(&BodyOption::FrictionStatic(scalar(14.)));
    body.set_one(&BodyOption::FrictionAir(scalar(15.)));
    body.set_one(&BodyOption::CollisionFilter(CollisionFilter::new(16, 17, 18)));
    body.set_one(&BodyOption::Slop(scalar(19.)));
    body.set_one(&BodyOption::TimeScale(20));
    body.set_one(&BodyOption::Render(Render::new(
        false,
        scalar(21.),
        Sprite::new(scalar(1.), scalar(1.), scalar(0.), scalar(0.)),
    )));
    body.set_one(&BodyOption::Bounds(Bounds::new(
        BoundsPart::new(scalar(22.), scalar(23.)),
        BoundsPart::new(scalar(24.), scalar(25.)),
    )));
    body.set_one(&BodyOption::Chamfer(vec![Vector::create(scalar(26.), scalar(27.))]));
    body.set_one(&BodyOption::CircleRadius(scalar(28.)));
    body.set_one(&BodyOption::PositionPrev(Position::new(scalar(29.), scalar(30.))));
    body.set_one(&BodyOption::AnglePrev(scalar(31.)));
    body.set_one(&BodyOption::Area(scalar(32.)));
    body.set_one(&BodyOption::DeltaTime(scalar(33.)));

    assert_xy(&body.get_force(), 1., 2.);
    assert_float(body.get_torque(), 3.);
    assert_xy(&body.get_position_impulse(), 4., 5.);
    assert_xy(&body.get_constraint_impulse(), 6., 7.);
    assert_float(body.get_constraint_impulse().get_angle(), 8.);
    assert_eq!(body.get_total_contacts(), 9);
    assert_eq!(body.get_is_sensor(), true);
    assert_eq!(body.get_is_sleeping(), true);
    assert_float(body.get_motion(), 10.);
    assert_eq!(body.get_sleep_threshold(), 11);
    assert_float(body.get_resitution(), 12.);
    assert_float(body.get_friction(), 13.);
    assert_float(body.get_friction_static(), 14.);
    assert_float(body.get_friction_air(), 15.);
    assert_eq!(body.get_collision_filter().get_group(), 18);
    assert_float(body.get_slop(), 19.);
    assert_eq!(body.get_time_scale(), 20);
    assert_float(body.get_render().get_opacity(), 21.);
    assert_float(body.get_bounds().unwrap().max.y, 25.);
    assert_xy(&body.get_chamfer().unwrap()[0], 26., 27.);
    assert_float(body.get_circle_radius().unwrap(), 28.);
    assert_xy(&body.get_position_prev().unwrap(), 29., 30.);
    assert_float(body.get_angle_prev(), 31.);
    assert_float(body.get_area(), 32.);
    assert_float(body.get_delta_time().unwrap(), 33.);
    // what was not named stays
    assert_float(body.get_mass(), 88.);
    assert_float(body.get_angle(), 42.);
    assert_eq!(body.get_parts().len(), 3);
}

#[test]
fn set_one_should_make_numbered_axes_of_the_normals_given() {
    let mut body = test_content(0.);

    body.set_one(&BodyOption::Axes(vec![
        Vector::create(scalar(0.), scalar(1.)),
        Vector::create(scalar(-1.), scalar(0.)),
    ]));

    let axes = body.get_axes().unwrap();
    assert_eq!(axes.len(), 2);
    assert_xy(&axes[0], 0., 1.);
    assert_xy(&axes[1], -1., 0.);
    assert_eq!(axes[0].get_index(), 0);
    assert_eq!(axes[1].get_index(), 1);
    assert_eq!(axes[1].get_body(), None);
}

#[test]
fn stands_alone_should_tell_the_properties_that_others_follow() {
    assert_eq!(BodyOption::Area(scalar(1.)).stands_alone(), true);
    assert_eq!(BodyOption::IsStatic(true).stands_alone(), true);
    assert_eq!(BodyOption::Axes(Vec::new()).stands_alone(), true);
    assert_eq!(BodyOption::Friction(scalar(1.)).stands_alone(), true);
    assert_eq!(BodyOption::Mass(scalar(1.)).stands_alone(), false);
    assert_eq!(BodyOption::Density(scalar(1.)).stands_alone(), false);
    assert_eq!(BodyOption::Inertia(scalar(1.)).stands_alone(), false);
    assert_eq!(BodyOption::Angle(scalar(1.)).stands_alone(), false);
    assert_eq!(BodyOption::Vertices(Vec::new()).stands_alone(), false);
    assert_eq!(BodyOption::Position(Position::new(scalar(1.), scalar(1.))).stands_alone(), false);
    assert_eq!(BodyOption::Velocity(Velocity::new(scalar(1.), scalar(1.))).stands_alone(), false);
    assert_eq!(BodyOption::Speed(scalar(1.)).stands_alone(), false);
    assert_eq!(BodyOption::AngularSpeed(scalar(1.)).stands_alone(), false);
    assert_eq!(BodyOption::AngularVelocity(scalar(1.)).stands_alone(), false);
    assert_eq!(BodyOption::Original(Body::default_body()).stands_alone(), false);
}

#[test]
fn set_one_should_freeze_the_body_and_its_parts() {
    let mut body = test_body();

    body.set_one(&BodyOption::IsStatic(true));

    for part in body.get_parts() {
        assert_eq!(part.get_is_static(), true);
        assert_float(part.get_mass(), f64::INFINITY);
    }

    body.set_one(&BodyOption::IsStatic(false));

    for part in body.get_parts() {
        assert_eq!(part.get_is_static(), false);
        assert_float(part.get_mass(), 88.);
    }
}

#[test]
fn body_original_should_be_a_snapshot_of_the_seven_properties() {
    let body = test_content(0.);

    let mut original = BodyOriginal::from(&body);

    assert_float(original.get_density(), 1.1);
    assert_float(original.get_friction(), 666.);
    assert_float(original.get_inertia(), 32.);
    assert_float(original.get_inverse_inertia(), 16.);
    assert_float(original.get_inverse_mass(), 17.);
    assert_float(original.get_mass(), 88.);
    assert_float(original.get_resitution(), 69.);

    original.set_density(scalar(1.));
    original.set_friction(scalar(2.));
    original.set_inertia(scalar(3.));
    original.set_inverse_inertia(scalar(4.));
    original.set_inverse_mass(scalar(5.));
    original.set_mass(scalar(6.));
    original.set_resitution(scalar(7.));

    assert_float(original.get_density(), 1.);
    assert_float(original.get_friction(), 2.);
    assert_float(original.get_inertia(), 3.);
    assert_float(original.get_inverse_inertia(), 4.);
    assert_float(original.get_inverse_mass(), 5.);
    assert_float(original.get_mass(), 6.);
    assert_float(original.get_resitution(), 7.);
}

#[test]
fn body_properties_should_keep_totals_and_centre() {
    let mut properties =
        BodyProperties::new(scalar(1.), scalar(2.), scalar(3.), Position::new(scalar(4.), scalar(5.)));

    assert_float(properties.get_mass(), 1.);
    assert_float(properties.get_area(), 2.);
    assert_float(properties.get_inertia(), 3.);
    assert_xy(&properties.get_centre(), 4., 5.);
    assert_xy(&properties, 4., 5.);

    properties.set_mass(scalar(10.));
    properties.set_area(scalar(20.));
    properties.set_inertia(scalar(30.));
    properties.set_centre(&Vector::create(scalar(40.), scalar(50.)));

    assert_float(properties.get_mass(), 10.);
    assert_float(properties.get_area(), 20.);
    assert_float(properties.get_inertia(), 30.);
    assert_xy(&properties.get_centre(), 40., 50.);

    properties.set_x(scalar(6.));
    properties.set_y(scalar(7.));
    assert_xy(&properties, 6., 7.);
    assert_float(properties.get_mass(), 10.);
}
