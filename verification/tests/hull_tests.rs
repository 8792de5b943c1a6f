use std::cmp::Ordering;

use float_cmp::ApproxEq;
use matter_core::base::xy::XY;
use matter_core::geometry::hull::HullChain;
use matter_core::geometry::order::walk_order;
use matter_core::geometry::sort::Sorter;
use matter_core::geometry::vector::Vector;
use matter_core::geometry::vertex::Vertex;
use matter_core::geometry::vertices::Vertices;
use matter_core::scalar::Scalar;

fn scalar(value: f64) -> Scalar {
    Scalar::from_bits(value.to_bits())
}

fn float(value: Scalar) -> f64 {
    f64::from_bits(value.to_bits())
}

fn assert_float(result: f64, expected: f64) {
    assert!(
        result.approx_eq(expected, (0.0, 2)),
        "result: {} did not match expected: {}",
        result,
        expected
    );
}

fn assert_xy(result: &impl XY, expected_x: f64, expected_y: f64) {
    assert_float(float(result.get_x()), expected_x);
    assert_float(float(result.get_y()), expected_y);
}

fn points(values: &[(f64, f64)]) -> Vec<Vector> {
    values.iter().map(|(x, y)| Vector::create(scalar(*x), scalar(*y))).collect()
}

fn test_square_with_decimals() -> Vec<Vector> {
    points(&[(0.0, 0.0), (40.1, 0.0), (40.1, 40.1), (0.0, 40.1)])
}

fn cross3(a: &Vertex, b: &Vertex, c: &Vertex) -> f64 {
    (float(b.get_x()) - float(a.get_x())) * (float(c.get_y()) - float(a.get_y()))
        - (float(b.get_y()) - float(a.get_y())) * (float(c.get_x()) - float(a.get_x()))
}

/// The convex hull of a polygon: the order of the walk and the cross products
/// are worked out here, the chain is the library's.
fn hull(vertices: &mut Vertices) -> usize {
    let mut sorter = Sorter::new(vertices.get_value());
    while let Some((vector_a, vector_b)) = sorter.ask() {
        let delta_x = float(vector_a.get_x()) - float(vector_b.get_x());
        let delta_y = float(vector_a.get_y()) - float(vector_b.get_y());

        sorter.answer(walk_order(scalar(delta_x), scalar(delta_y)) == Ordering::Less);
    }

    let mut answers = 0;
    let mut chain = HullChain::new(sorter.finish().get_value());
    while let Some((before, last, coming)) = chain.ask() {
        chain.answer(scalar(cross3(&before, &last, &coming)));
        answers += 1;
    }
    assert!(chain.is_done());
    *vertices = chain.finish();
    answers
}

#[test]
fn hull_should_mutate_the_vertices_to_a_valid_vec() {
    //Arrange
    let points = test_square_with_decimals();
    let mut vertices = Vertices::create(points, None);

    // Act
    hull(&mut vertices);

    // Assert
    assert_xy(&vertices[0], 40.1, 40.1);
    assert_xy(&vertices[1], 0.0, 40.1);
    assert_xy(&vertices[2], 0.0, 0.0);
    assert_xy(&vertices[3], 40.1, 0.0);
}

/// The turn at every corner of a polygon.
fn turns(vertices: &Vertices) -> Vec<Scalar> {
    let len = vertices.len();
    (0..len)
        .map(|index| {
            let j = (index + 1) % len;
            let k = (index + 2) % len;
            let mut z = (float(vertices[j].get_x()) - float(vertices[index].get_x()))
                * (float(vertices[k].get_y()) - float(vertices[j].get_y()));
            z -= (float(vertices[j].get_y()) - float(vertices[index].get_y()))
                * (float(vertices[k].get_x()) - float(vertices[j].get_x()));
            scalar(z)
        })
        .collect()
}

#[test]
fn hull_should_be_convex() {
    let mut vertices = Vertices::create(
        points(&[(0.0, 0.0), (2.0, 1.0), (4.0, 0.0), (3.0, 2.0), (4.0, 4.0), (2.0, 3.0), (0.0, 4.0), (1.0, 2.0)]),
        None,
    );
    assert_eq!(Vertices::convexity(&turns(&vertices)), Some(false));

    hull(&mut vertices);

    assert_eq!(Vertices::convexity(&turns(&vertices)), Some(true));
}

#[test]
fn hull_should_keep_the_corners_of_a_convex_polygon() {
    let mut vertices = Vertices::create(
        points(&[(0.0, 0.0), (4.0, -1.0), (6.0, 2.0), (4.0, 5.0), (0.0, 4.0), (-2.0, 2.0)]),
        Some(3),
    );

    hull(&mut vertices);

    assert_eq!(vertices.len(), 6);
    let mut indices: Vec<usize> = (0..6).map(|index| vertices[index].get_index()).collect();
    indices.sort();
    assert_eq!(indices, vec![0, 1, 2, 3, 4, 5]);
    for index in 0..6 {
        assert_eq!(vertices[index].get_body(), Some(3));
    }
    assert_eq!(Vertices::convexity(&turns(&vertices)), Some(true));
}

#[test]
fn hull_should_leave_out_what_lies_inside() {
    let mut vertices = Vertices::create(
        points(&[(0.0, 0.0), (2.0, 1.0), (4.0, 0.0), (3.0, 2.0), (4.0, 4.0), (2.0, 3.0), (0.0, 4.0), (1.0, 2.0)]),
        None,
    );

    hull(&mut vertices);

    assert_eq!(vertices.len(), 4);
    assert_xy(&vertices[0], 4.0, 4.0);
    assert_xy(&vertices[1], 0.0, 4.0);
    assert_xy(&vertices[2], 0.0, 0.0);
    assert_xy(&vertices[3], 4.0, 0.0);
}

#[test]
fn hull_should_need_no_more_answers_than_the_work_that_is_left() {
    let count = 8;
    let mut vertices = Vertices::create(
        points(&[(0.0, 0.0), (2.0, 1.0), (4.0, 0.0), (3.0, 2.0), (4.0, 4.0), (2.0, 3.0), (0.0, 4.0), (1.0, 2.0)]),
        None,
    );

    let answers = hull(&mut vertices);

    assert!(answers <= 4 * count);
}

#[test]
fn hull_chain_should_be_done_at_once_without_points() {
    let mut chain = HullChain::new(Vec::new());

    assert_eq!(chain.is_done(), false);
    assert!(chain.ask().is_none());
    assert_eq!(chain.is_done(), true);
    assert_eq!(chain.finish().len(), 0);
}

#[test]
fn hull_chain_should_ask_nothing_of_fewer_than_three_points() {
    let one = Vertex::new(None, scalar(1.0), scalar(1.0), 0, false);
    let two = Vertex::new(None, scalar(2.0), scalar(2.0), 1, false);

    let mut chain = HullChain::new(vec![one]);
    assert!(chain.ask().is_none());
    assert_eq!(chain.finish().len(), 0);

    let mut chain = HullChain::new(vec![one, two]);
    assert!(chain.ask().is_none());
    let hull = chain.finish();
    assert_eq!(hull.len(), 2);
    assert_xy(&hull[0], 2.0, 2.0);
    assert_xy(&hull[1], 1.0, 1.0);
}

#[test]
fn hull_chain_should_ask_for_the_two_corners_last_kept_and_the_point_that_comes() {
    let corners: Vec<Vertex> = (0..3)
        .map(|index| Vertex::new(None, scalar(index as f64), scalar(0.0), index, false))
        .collect();
    let mut chain = HullChain::new(corners);

    let (before, last, coming) = chain.ask().unwrap();

    assert_eq!(before.get_index(), 0);
    assert_eq!(last.get_index(), 1);
    assert_eq!(coming.get_index(), 2);
}

#[test]
fn hull_chain_should_drop_a_corner_for_a_turn_not_above_zero_and_ask_again() {
    let corners: Vec<Vertex> = (0..4)
        .map(|index| Vertex::new(None, scalar(index as f64), scalar(0.0), index, false))
        .collect();
    let mut chain = HullChain::new(corners);

    chain.ask().unwrap();
    chain.answer(scalar(1.0));
    let (before, last, coming) = chain.ask().unwrap();
    assert_eq!((before.get_index(), last.get_index(), coming.get_index()), (1, 2, 3));

    chain.answer(scalar(0.0));
    let (before, last, coming) = chain.ask().unwrap();
    assert_eq!((before.get_index(), last.get_index(), coming.get_index()), (0, 1, 3));

    chain.answer(scalar(-2.0));
    // the chain is down to one corner: the point is taken in without a question,
    // and the walk back begins
    let (before, last, coming) = chain.ask().unwrap();
    assert_eq!((before.get_index(), last.get_index(), coming.get_index()), (3, 2, 1));
}

#[test]
fn hull_chain_should_take_a_point_in_for_a_turn_that_is_no_number() {
    let corners: Vec<Vertex> = (0..4)
        .map(|index| Vertex::new(None, scalar(index as f64), scalar(0.0), index, false))
        .collect();
    let mut chain = HullChain::new(corners);

    chain.ask().unwrap();
    chain.answer(scalar(f64::NAN));
    let (before, last, coming) = chain.ask().unwrap();

    assert_eq!((before.get_index(), last.get_index(), coming.get_index()), (1, 2, 3));
}

#[test]
fn hull_chain_should_not_move_for_an_answer_that_was_not_asked_for() {
    let one = Vertex::new(None, scalar(1.0), scalar(1.0), 0, false);
    let two = Vertex::new(None, scalar(2.0), scalar(2.0), 1, false);
    let mut chain = HullChain::new(vec![one, two]);

    chain.answer(scalar(-1.0));
    chain.answer(scalar(1.0));

    assert!(chain.ask().is_none());
    assert_eq!(chain.finish().len(), 2);
}

#[test]
fn hull_chain_should_come_to_an_end_whatever_the_answers_are() {
    let corners: Vec<Vertex> = (0..6)
        .map(|index| Vertex::new(None, scalar(index as f64), scalar(0.0), index, false))
        .collect();
    for pattern in 0..64_u32 {
        let mut chain = HullChain::new(corners.clone());
        let mut answers = 0;
        while chain.ask().is_some() {
            let turn = if (pattern >> (answers % 6)) & 1 == 1 { 1.0 } else { -1.0 };
            chain.answer(scalar(turn));
            answers += 1;
            assert!(answers <= 24);
        }
        let hull = chain.finish();
        for index in 0..hull.len() {
            assert!(hull[index].get_index() < 6);
        }
    }
}

#[test]
fn hull_should_lose_a_corner_where_a_cross_product_rounds_to_nothing() {
    // a triangle so small that the product of two of its sides is no number
    // above zero any more: the turn at its corner is found to be zero
    let mut vertices = Vertices::create(points(&[(0.0, 0.0), (1e-200, 0.0), (0.0, 1e-200)]), None);

    hull(&mut vertices);

    assert_eq!(vertices.len(), 2);
    assert_xy(&vertices[0], 1e-200, 0.0);
    assert_xy(&vertices[1], 0.0, 0.0);
}

#[test]
fn hull_should_keep_every_corner_of_a_triangle() {
    let mut vertices = Vertices::create(points(&[(0.0, 0.0), (4.0, 0.0), (0.0, 3.0)]), None);

    hull(&mut vertices);

    assert_eq!(vertices.len(), 3);
    let mut indices: Vec<usize> = (0..3).map(|index| vertices[index].get_index()).collect();
    indices.sort();
    assert_eq!(indices, vec![0, 1, 2]);
    assert_eq!(Vertices::convexity(&turns(&vertices)), Some(true));
}
