use float_cmp::ApproxEq;
use matter_core::base::xy::XY;
use matter_core::geometry::axes::Axes;
use matter_core::geometry::vector::Vector;
use matter_core::geometry::vertex::Vertex;
use matter_core::geometry::vertices::Vertices;
use matter_core::scalar::Scalar;

fn scalar(value: f64) -> Scalar {
    Scalar::from_bits(value.to_bits())
}

fn float(value: Scalar) -> f64 {
    f64::from_bits(value.to_bits())
}

fn assert_float(result: f64, expected: f64) {
    assert!(
        result.approx_eq(expected, (0.0, 2)),
        "result: {} did not match expected: {}",
        result,
        expected
    );
}

fn assert_xy(result: &impl XY, expected_x: f64, expected_y: f64) {
    assert_float(float(result.get_x()), expected_x);
    assert_float(float(result.get_y()), expected_y);
}

fn test_square() -> Vec<Vector> {
    [(1.0, 1.0), (3.0, 1.0), (3.0, 3.0), (1.0, 3.0)]
        .iter()
        .map(|(x, y): &(f64, f64)| Vector::create(scalar(*x), scalar(*y)))
        .collect()
}

/// The normal of every edge with the key of its slope. The numbers are
/// worked out here; which normals are one axis is the library's to say.
fn keyed_normals(vertices: &Vertices) -> Vec<(String, Vector)> {
    let len = vertices.len();
    (0..len)
        .map(|index| {
            let next = (index + 1) % len;
            let x = float(vertices[next].get_y()) - float(vertices[index].get_y());
            let y = float(vertices[index].get_x()) - float(vertices[next].get_x());
            let magnitude = (x * x + y * y).sqrt();
            let (x, y) = if magnitude == 0.0 { (0.0, 0.0) } else { (x / magnitude, y / magnitude) };
            let gradient = float(Axes::gradient(scalar(y), scalar(x / y)));
            (format!("{0:.3}", gradient), Vector::create(scalar(x), scalar(y)))
        })
        .collect()
}

fn from_vertices(vertices: &Vertices) -> Axes {
    Axes::from_keyed_normals(vertices, keyed_normals(vertices))
}

#[test]
fn from_vertices_should_return_valid_vectors_as_axes() {
    //Arrange
    let points = test_square();
    let vertices = Vertices::create(points, None);

    // Act
    let result = from_vertices(&vertices);

    // Assert
    assert_xy(&result[0], 0.0, 1.0);
    assert_xy(&result[1], -1.0, 0.0);
}

#[test]
fn from_vertices_should_keep_one_axis_for_each_slope() {
    let vertices = Vertices::create(test_square(), Some(8));

    let result = from_vertices(&vertices);

    assert_eq!(result.len(), 2);
    assert_eq!(result[0].get_index(), 2);
    assert_eq!(result[1].get_index(), 3);
    assert_eq!(result[0].get_body(), Some(8));
}

#[test]
fn from_keyed_normals_should_keep_the_place_of_the_first_and_the_normal_of_the_last() {
    let normal = |x: f64| Vector::create(scalar(x), scalar(0.0));
    let keyed = vec![
        (String::from("a"), normal(1.0)),
        (String::from("b"), normal(2.0)),
        (String::from("a"), normal(3.0)),
        (String::from("c"), normal(4.0)),
        (String::from("b"), normal(5.0)),
        (String::from("a"), normal(6.0)),
    ];
    let mut corners: Vec<Vertex> = (0..6)
        .map(|index| Vertex::new(Some(index as u128), scalar(0.0), scalar(0.0), 9, false))
        .collect();
    corners[5].set_is_interal(true);
    let vertices = Vertices::from_value(corners);

    let result = Axes::from_keyed_normals(&vertices, keyed);

    assert_eq!(result.len(), 3);
    assert_xy(&result[0], 6.0, 0.0);
    assert_xy(&result[1], 5.0, 0.0);
    assert_xy(&result[2], 4.0, 0.0);
    assert_eq!(result[0].get_index(), 5);
    assert_eq!(result[1].get_index(), 4);
    assert_eq!(result[2].get_index(), 3);
    assert_eq!(result[0].get_body(), Some(5));
    assert_eq!(result[1].get_body(), Some(4));
    assert_eq!(result[2].get_body(), Some(3));
    assert_eq!(result[0].get_is_internal(), true);
    assert_eq!(result[1].get_is_internal(), false);
}

#[test]
fn gradient_should_be_infinite_for_a_flat_normal_and_zero_for_an_upright_one() {
    let gradient = |x: f64, y: f64| float(Axes::gradient(scalar(y), scalar(x / y)));

    assert_eq!(gradient(1.0, 0.0), f64::INFINITY);
    assert_eq!(gradient(-1.0, 0.0), f64::INFINITY);
    assert_eq!(gradient(-1.0, -0.0), f64::INFINITY);
    assert_eq!(gradient(0.0, 0.0), f64::INFINITY);
    assert_eq!(gradient(0.0, -1.0).to_bits(), 0.0_f64.to_bits());
    assert_eq!(gradient(-0.0, 1.0).to_bits(), 0.0_f64.to_bits());
    assert_eq!(gradient(1.0, 2.0), 0.5);
    assert_eq!(gradient(1.0, -2.0), -0.5);
    assert!(gradient(f64::NAN, 2.0).is_nan());
}

#[test]
fn gradient_should_be_what_the_comparisons_of_the_numbers_give() {
    for (x, y) in [(1.0, 0.0), (0.0, -1.0), (-0.0, 1.0), (3.0, 4.0), (-3.0, 4.0), (0.0, 0.0), (f64::NAN, 1.0), (1.0, f64::NAN)] {
        let x: f64 = x;
        let y: f64 = y;
        let expected = if y == 0.0 {
            f64::INFINITY
        } else {
            let result = x / y;
            if result == -0.0 {
                0.0
            } else {
                result
            }
        };
        let gradient = float(Axes::gradient(scalar(y), scalar(x / y)));
        assert_eq!(gradient.to_bits(), expected.to_bits(), "{} {}", x, y);
    }
}

#[test]
fn from_keyed_normals_should_make_no_axes_of_no_normals() {
    let result = Axes::from_keyed_normals(&Vertices::from_value(Vec::new()), Vec::new());

    assert_eq!(result.len(), 0);
}

#[test]
fn new_should_keep_the_axes_given() {
    let axes = vec![
        Vertex::new(None, scalar(1.), scalar(1.), 0, false),
        Vertex::new(None, scalar(-1.), scalar(-1.), 1, false),
    ];

    let mut result = Axes::new(&axes);

    assert_eq!(result.len(), 2);
    assert_xy(&result[0], 1.0, 1.0);
    assert_xy(result.get(1), -1.0, -1.0);

    result.set(0, Vertex::new(None, scalar(0.), scalar(1.), 0, false));
    assert_xy(&result[0], 0.0, 1.0);
    assert_xy(&result.clone()[1], -1.0, -1.0);
}
