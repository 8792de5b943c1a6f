use crate::geometry::vector::Vector;
use crate::geometry::vertex::Vertex;
use crate::scalar::Scalar;
use vstd::prelude::*;
use vstd::string::StringExecFns;

verus! {

/// Why a path could not be read.
#[derive(Debug, Clone, PartialEq, Eq)]
pub enum FromPathError {
    /// The pattern that finds the numbers was not accepted, or found no
    /// pair of numbers in the path.
    RegexError(String),
    /// A text that the pattern took for a number is none.
    ParseFloatError(String),
}

/// The pattern that finds the numbers of a path, two at a time: a run of
/// digits, dots and `e`, then white space or commas, then a run of digits,
/// dots, `e` and `-`. Whatever stands between two such pairs is passed over.
pub const PATH_PATTERN: &'static str = r"([\d.e]+)[\s,]*([-\d.e]+)";

/// What is said against a path in which the pattern finds no pair of
/// numbers at all.
pub const NO_PAIRS_DETAIL: &'static str = "the path holds no pair of numbers";

/// One number of a path: the scalar it was read as, or what the reading
/// said against its text.
pub type PathNumber = Result<Scalar, String>;

/// The texts of the two groups of every match that the regular expression
/// `pattern` finds in `path`, the matches taken from the left and not
/// overlapping; `None` where `pattern` is not accepted as a regular
/// expression.
pub uninterp spec fn regex_pairs(pattern: Seq<char>, path: Seq<char>) -> Option<
    Seq<(Seq<char>, Seq<char>)>,
>;

#[verifier::external_type_specification]
#[verifier::external_body]
pub struct ExRegexError(regex::Error);

/// Pairs of strings as pairs of texts.
pub open spec fn pair_texts(pairs: Seq<(String, String)>) -> Seq<(Seq<char>, Seq<char>)> {
    pairs.map_values(|pair: (String, String)| (pair.0@, pair.1@))
}

/// `regex::Regex::new` on `pattern` and `Regex::captures_iter` on `path`,
/// with `Captures::extract` taking the two groups out of each match. Both
/// are functions of their arguments: the same pattern and path give the same
/// pairs, or the same refusal of the pattern. `extract` panics unless the
/// pattern has exactly two groups in every match, as the one admitted here
/// has.
#[verifier::external_body]
fn captured_pairs(pattern: &str, path: &str) -> (found: Result<Vec<(String, String)>, regex::Error>)
    requires
        pattern@ == PATH_PATTERN@,
    ensures
        match found {
            Ok(pairs) => regex_pairs(pattern@, path@) == Some(pair_texts(pairs@)),
            Err(_) => regex_pairs(pattern@, path@) is None,
        },
{
    let compiled = regex::Regex::new(pattern)?;
    Ok(
        compiled.captures_iter(path).map(
            |found| {
                let (_, [first, second]) = found.extract();
                (first.to_string(), second.to_string())
            },
        ).collect(),
    )
}

/// What a `regex::Error` shows of itself (its `Display`). Nothing is claimed
/// of the text.
#[verifier::external_body]
fn regex_error_detail(error: &regex::Error) -> (detail: String) {
    error.to_string()
}

/// The message of a refused pattern.
pub open spec fn regex_error_message(path: Seq<char>, detail: Seq<char>) -> Seq<char> {
    "Regex error while parsing "@ + path + " to Vectores.\nError:"@ + detail
}

/// The message of a text that is no number.
pub open spec fn parse_error_message(path: Seq<char>, detail: Seq<char>) -> Seq<char> {
    "Float parsing error while parsing path "@ + path + "\nError:"@ + detail
}

/// What the reading said against the pair, its first number before its
/// second; `None` where both were read.
pub open spec fn pair_failure(pair: (PathNumber, PathNumber)) -> Option<Seq<char>> {
    match pair.0 {
        Err(detail) => Some(detail@),
        Ok(_) => match pair.1 {
            Err(detail) => Some(detail@),
            Ok(_) => None,
        },
    }
}

/// Every number of every pair was read.
pub open spec fn all_read(numbers: Seq<(PathNumber, PathNumber)>) -> bool {
    forall|i: int| 0 <= i < numbers.len() ==> pair_failure(#[trigger] numbers[i]) is None
}

/// Pair `i` is the first with a number that was not read.
pub open spec fn first_failure_at(numbers: Seq<(PathNumber, PathNumber)>, i: int) -> bool {
    &&& 0 <= i < numbers.len()
    &&& pair_failure(numbers[i]) is Some
    &&& forall|j: int| 0 <= j < i ==> pair_failure(#[trigger] numbers[j]) is None
}

/// The vertices of numbers that were all read: pair `i` is vertex `i`, with
/// index `i`, not internal, owned by `body`.
pub open spec fn read_vertices(numbers: Seq<(PathNumber, PathNumber)>, body: Option<u128>) -> Seq<
    Vertex,
> {
    Seq::new(
        numbers.len(),
        |i: int|
            Vertex {
                body,
                x: numbers[i].0->Ok_0,
                y: numbers[i].1->Ok_0,
                index: i as usize,
                is_internal: false,
            },
    )
}

/// The vertices of a list of points: point `i` is vertex `i`, with index
/// `i`, not internal, owned by `body`.
pub open spec fn indexed_vertices(points: Seq<Vector>, body: Option<u128>) -> Seq<Vertex> {
    Seq::new(
        points.len(),
        |i: int|
            Vertex { body, x: points[i].x, y: points[i].y, index: i as usize, is_internal: false },
    )
}

/// One of `values` is a number below zero.
pub open spec fn some_below_zero(values: Seq<Scalar>) -> bool {
    exists|i: int| 0 <= i < values.len() && (#[trigger] values[i]).lt(Scalar::zero())
}

/// One of `values` is a number above zero.
pub open spec fn some_above_zero(values: Seq<Scalar>) -> bool {
    exists|i: int| 0 <= i < values.len() && (#[trigger] values[i]).gt(Scalar::zero())
}

/// What the turns at the corners of a polygon say of it: `Some(false)` where
/// it turns to both sides, `Some(true)` where it turns to one side only, and
/// `None` where nothing can be said, because it has fewer than three corners
/// or turns nowhere.
pub open spec fn turns_convexity(turns: Seq<Scalar>) -> Option<bool> {
    if turns.len() < 3 {
        None
    } else if some_below_zero(turns) && some_above_zero(turns) {
        Some(false)
    } else if some_below_zero(turns) || some_above_zero(turns) {
        Some(true)
    } else {
        None
    }
}

/// The area of a polygon from half its shoelace sum: the half as it is where
/// the sign is asked for, otherwise the half without its sign. The sign is
/// not asked for unless `signed` says so.
pub open spec fn area_value(half_sum: Scalar, signed: Option<bool>) -> Scalar {
    if signed == Some(true) {
        half_sum
    } else {
        half_sum.abs()
    }
}

/// What stands in the place of one corner once the corners are rounded: the
/// corner itself where it has no arc, otherwise the points of its arc, each
/// owned and marked as the corner was and numbered along the arc.
pub open spec fn corner_vertices(corner: Vertex, arc: Option<Seq<Vector>>) -> Seq<Vertex> {
    match arc {
        Some(points) => Seq::new(
            points.len(),
            |i: int|
                Vertex {
                    body: corner.body,
                    x: points[i].x,
                    y: points[i].y,
                    index: i as usize,
                    is_internal: corner.is_internal,
                },
        ),
        None => seq![corner],
    }
}

/// The first `count` corners of a polygon, each replaced by what stands in
/// its place.
pub open spec fn rounded(
    corners: Seq<Vertex>,
    arcs: Seq<Option<Seq<Vector>>>,
    count: nat,
) -> Seq<Vertex>
    decreases count,
{
    if count == 0 {
        Seq::empty()
    } else {
        rounded(corners, arcs, (count - 1) as nat) + corner_vertices(
            corners[count - 1],
            arcs[count - 1],
        )
    }
}

/// Arcs as values.
pub open spec fn arc_views(arcs: Seq<Option<Vec<Vector>>>) -> Seq<Option<Seq<Vector>>> {
    arcs.map_values(
        |arc: Option<Vec<Vector>>|
            match arc {
                Some(points) => Some(points@),
                None => None,
            },
    )
}

/// A polygon: its corners in order. The order is the winding.
#[derive(Debug)]
pub struct Vertices {
    value: Vec<Vertex>,
}

impl View for Vertices {
    type V = Seq<Vertex>;

    closed spec fn view(&self) -> Seq<Vertex> {
        self.value@
    }
}

impl core::ops::Index<usize> for Vertices {
    type Output = Vertex;

    fn index(&self, index: usize) -> (vertex: &Vertex)
        ensures
            *vertex == self@[index as int],
    {
        &self.value[index]
    }
}

impl vstd::std_specs::core::IndexSpecImpl<usize> for Vertices {
    open spec fn index_req(&self, index: &usize) -> bool {
        *index < self@.len()
    }
}

impl Clone for Vertices {
    fn clone(&self) -> (copy: Self)
        ensures
            copy@ == self@,
    {
        Vertices { value: self.value.clone() }
    }
}

impl Vertices {
    pub fn len(&self) -> (len: usize)
        ensures
            len == self@.len(),
    {
        self.value.len()
    }

    pub fn get(&self, index: usize) -> (vertex: &Vertex)
        requires
            index < self@.len(),
        ensures
            *vertex == self@[index as int],
    {
        &self.value[index]
    }

    pub fn set(&mut self, index: usize, vertex: Vertex)
        requires
            index < old(self)@.len(),
        ensures
            final(self)@ == old(self)@.update(index as int, vertex),
    {
        self.value.set(index, vertex);
    }

    pub fn get_value(&self) -> (value: Vec<Vertex>)
        ensures
            value@ == self@,
    {
        self.value.clone()
    }

    /// The polygon with exactly these corners.
    pub fn from_value(value: Vec<Vertex>) -> (vertices: Vertices)
        ensures
            vertices@ == value@,
    {
        Vertices { value }
    }

    pub fn append(&mut self, values: &Vertices)
        ensures
            final(self)@ == old(self)@ + values@,
    {
        let mut index: usize = 0;
        while index < values.value.len()
            invariant
                index <= values@.len(),
                self@ == old(self)@ + values@.subrange(0, index as int),
            decreases values@.len() - index,
        {
            self.value.push(values.value[index]);
            index += 1;
        }
    }

    pub fn new(points: Vec<Vector>, body: Option<u128>) -> (vertices: Self)
        ensures
            vertices@ == indexed_vertices(points@, body),
    {
        let mut vertices: Vec<Vertex> = Vec::new();
        let mut index: usize = 0;
        while index < points.len()
            invariant
                index <= points@.len(),
                vertices@ == indexed_vertices(points@, body).subrange(0, index as int),
            decreases points@.len() - index,
        {
            vertices.push(Vertex::from_xy(body, &points[index], index, false));
            index += 1;
        }
        Vertices { value: vertices }
    }

    pub fn create(points: Vec<Vector>, body: Option<u128>) -> (vertices: Self)
        ensures
            vertices@ == indexed_vertices(points@, body),
    {
        Vertices::new(points, body)
    }

    /// Hands every corner to the body with id `body`.
    pub fn set_body(&mut self, body: u128)
        ensures
            final(self)@ == old(self)@.map_values(
                |vertex: Vertex| Vertex { body: Some(body), ..vertex },
            ),
    {
        let mut index: usize = 0;
        while index < self.value.len()
            invariant
                index <= self@.len(),
                self@.len() == old(self)@.len(),
                forall|i: int|
                    0 <= i < index ==> self@[i] == (Vertex { body: Some(body), ..old(self)@[i] }),
                forall|i: int| index <= i < self@.len() ==> self@[i] == old(self)@[i],
            decreases self@.len() - index,
        {
            let mut vertex = self.value[index];
            vertex.set_body(body);
            self.value.set(index, vertex);
            index += 1;
        }
    }

    /// The area of a polygon, from half the shoelace sum over its corners.
    pub fn area_from_half_sum(half_sum: Scalar, signed: Option<bool>) -> (area: Scalar)
        ensures
            area == area_value(half_sum, signed),
    {
        match signed {
            Some(true) => half_sum,
            _ => half_sum.abs(),
        }
    }

    /// The radius by which the corner at `index` is rounded: the radius at
    /// its own place in `radii`, or the last of them where there are fewer
    /// radii than corners.
    pub fn corner_radius(radii: &Vec<Scalar>, index: usize) -> (radius: Scalar)
        requires
            radii@.len() > 0,
        ensures
            radius == radii@[if index < radii@.len() {
                index as int
            } else {
                radii@.len() - 1
            }],
    {
        if index < radii.len() {
            radii[index]
        } else {
            radii[radii.len() - 1]
        }
    }

    /// Whether a corner with this radius is rounded at all: a corner whose
    /// radius is zero stays as it is and gets no arc.
    pub fn is_rounded(radius: Scalar) -> (rounded: bool)
        ensures
            rounded == !radius.eq(Scalar::zero()),
    {
        !radius.eq(Scalar::zero())
    }

    /// Rounds the corners: every corner that comes with an arc gives way to
    /// the points of that arc.
    pub fn replace_corners(&mut self, arcs: &Vec<Option<Vec<Vector>>>)
        requires
            arcs@.len() == old(self)@.len(),
        ensures
            final(self)@ == rounded(old(self)@, arc_views(arcs@), old(self)@.len()),
    {
        let mut value: Vec<Vertex> = Vec::new();
        let mut index: usize = 0;
        while index < self.value.len()
            invariant
                index <= self@.len(),
                arcs@.len() == self@.len(),
                *self == *old(self),
                value@ == rounded(self@, arc_views(arcs@), index as nat),
            decreases self@.len() - index,
        {
            let corner = self.value[index];
            match &arcs[index] {
                Some(points) => {
                    let ghost before = value@;
                    let mut step: usize = 0;
                    while step < points.len()
                        invariant
                            step <= points@.len(),
                            value@ == before + corner_vertices(corner, Some(points@)).subrange(
                                0,
                                step as int,
                            ),
                        decreases points@.len() - step,
                    {
                        value.push(
                            Vertex::new(
                                corner.body,
                                points[step].x,
                                points[step].y,
                                step,
                                corner.is_internal,
                            ),
                        );
                        step += 1;
                    }
                    assert(corner_vertices(corner, Some(points@)).subrange(0, step as int)
                        == corner_vertices(corner, Some(points@)));
                },
                None => {
                    value.push(corner);
                },
            }
            index += 1;
        }
        self.value = value;
    }

    /// Whether a polygon is convex, from the turn it takes at each corner:
    /// the cross product of the edge that arrives with the edge that leaves.
    pub fn convexity(turns: &Vec<Scalar>) -> (convex: Option<bool>)
        ensures
            convex == turns_convexity(turns@),
    {
        if turns.len() < 3 {
            return None;
        }
        let mut below = false;
        let mut above = false;
        let mut index: usize = 0;
        while index < turns.len()
            invariant
                index <= turns@.len(),
                below == some_below_zero(turns@.subrange(0, index as int)),
                above == some_above_zero(turns@.subrange(0, index as int)),
            decreases turns@.len() - index,
        {
            proof {
                let before = turns@.subrange(0, index as int);
                let after = turns@.subrange(0, index + 1);
                assert(after[index as int] == turns@[index as int]);
                assert forall|i: int| 0 <= i < before.len() implies before[i] == after[i] by {}
                if some_below_zero(before) {
                    let i = choose|i: int|
                        0 <= i < before.len() && (#[trigger] before[i]).lt(
                            Scalar::zero(),
                        );
                    assert(after[i].lt(Scalar::zero()));
                }
                if some_above_zero(before) {
                    let i = choose|i: int|
                        0 <= i < before.len() && (#[trigger] before[i]).gt(
                            Scalar::zero(),
                        );
                    assert(after[i].gt(Scalar::zero()));
                }
                if some_below_zero(after) && !turns@[index as int].lt(Scalar::zero()) {
                    let i = choose|i: int|
                        0 <= i < after.len() && (#[trigger] after[i]).lt(
                            Scalar::zero(),
                        );
                    assert(before[i].lt(Scalar::zero()));
                }
                if some_above_zero(after) && !turns@[index as int].gt(Scalar::zero()) {
                    let i = choose|i: int|
                        0 <= i < after.len() && (#[trigger] after[i]).gt(
                            Scalar::zero(),
                        );
                    assert(before[i].gt(Scalar::zero()));
                }
            }
            if turns[index].lt(Scalar::zero()) {
                below = true;
            } else if turns[index].gt(Scalar::zero()) {
                above = true;
            }
            index += 1;
        }
        assert(turns@.subrange(0, index as int) == turns@);
        if below && above {
            Some(false)
        } else if below || above {
            Some(true)
        } else {
            None
        }
    }

    /// Whether a point lies in a polygon, from the side of each edge that it
    /// is on: it lies inside unless it is on the outer side of some edge.
    pub fn encloses(sides: &Vec<Scalar>) -> (inside: bool)
        ensures
            inside == !some_above_zero(sides@),
    {
        let mut index: usize = 0;
        while index < sides.len()
            invariant
                index <= sides@.len(),
                forall|i: int| 0 <= i < index ==> !(#[trigger] sides@[i]).gt(Scalar::zero()),
            decreases sides@.len() - index,
        {
            if sides[index].gt(Scalar::zero()) {
                return false;
            }
            index += 1;
        }
        true
    }

    /// The pairs of number texts in `path`, as the path pattern finds them.
    /// A path in which the pattern finds no pair is no path: it fails, as a
    /// pattern that is not accepted does.
    pub fn path_numbers(path: &str) -> (numbers: Result<Vec<(String, String)>, FromPathError>)
        ensures
            match regex_pairs(PATH_PATTERN@, path@) {
                Some(texts) => if texts.len() > 0 {
                    (numbers matches Ok(pairs) && pair_texts(pairs@) == texts)
                } else {
                    (numbers matches Err(FromPathError::RegexError(message)) && message@
                        == regex_error_message(path@, NO_PAIRS_DETAIL@))
                },
                None => (numbers matches Err(FromPathError::RegexError(message)) && exists|
                    detail: Seq<char>,
                | message@ == regex_error_message(path@, detail)),
            },
    {
        match captured_pairs(PATH_PATTERN, path) {
            Ok(pairs) => {
                if pairs.len() == 0 {
                    Err(Vertices::no_pairs_error(path))
                } else {
                    Ok(pairs)
                }
            },
            Err(error) => {
                let detail = regex_error_detail(&error);
                let message = String::from_str("Regex error while parsing ").concat(path).concat(
                    " to Vectores.\nError:",
                ).concat(detail.as_str());
                assert(message@ == regex_error_message(path@, detail@));
                Err(FromPathError::RegexError(message))
            },
        }
    }

    /// The polygon of the numbers of a path, once each text was read as a
    /// number. The first text that is no number, in reading order, fails the
    /// whole path, and so does a path without any numbers.
    pub fn from_numbers(
        path: &str,
        numbers: Vec<(PathNumber, PathNumber)>,
        body: Option<u128>,
    ) -> (read: Result<Vertices, FromPathError>)
        ensures
            numbers@.len() == 0 ==> (read matches Err(FromPathError::RegexError(message))
                && message@ == regex_error_message(path@, NO_PAIRS_DETAIL@)),
            numbers@.len() > 0 && all_read(numbers@) ==> (read matches Ok(vertices) && vertices@
                == read_vertices(numbers@, body)),
            forall|i: int| #[trigger]
                first_failure_at(numbers@, i) ==> (read matches Err(
                    FromPathError::ParseFloatError(message),
                ) && message@ == parse_error_message(path@, pair_failure(numbers@[i])->Some_0)),
    {
        if numbers.len() == 0 {
            return Err(Vertices::no_pairs_error(path));
        }
        let mut vertices: Vec<Vertex> = Vec::new();
        let mut index: usize = 0;
        while index < numbers.len()
            invariant
                index <= numbers@.len(),
                forall|j: int| 0 <= j < index ==> pair_failure(#[trigger] numbers@[j]) is None,
                vertices@ == read_vertices(numbers@, body).subrange(0, index as int),
            decreases numbers@.len() - index,
        {
            let x = match &numbers[index].0 {
                Ok(x) => *x,
                Err(detail) => {
                    return Err(Vertices::parse_error(path, detail.as_str()));
                },
            };
            let y = match &numbers[index].1 {
                Ok(y) => *y,
                Err(detail) => {
                    return Err(Vertices::parse_error(path, detail.as_str()));
                },
            };
            vertices.push(Vertex::new(body, x, y, index, false));
            index += 1;
        }
        Ok(Vertices { value: vertices })
    }

    fn no_pairs_error(path: &str) -> (error: FromPathError)
        ensures
            (error matches FromPathError::RegexError(message) && message@ == regex_error_message(
                path@,
                NO_PAIRS_DETAIL@,
            )),
    {
        let message = String::from_str("Regex error while parsing ").concat(path).concat(
            " to Vectores.\nError:",
        ).concat(NO_PAIRS_DETAIL);
        FromPathError::RegexError(message)
    }

    fn parse_error(path: &str, detail: &str) -> (error: FromPathError)
        ensures
            (error matches FromPathError::ParseFloatError(message) && message@
                == parse_error_message(path@, detail@)),
    {
        let message = String::from_str("Float parsing error while parsing path ").concat(
            path,
        ).concat("\nError:").concat(detail);
        FromPathError::ParseFloatError(message)
    }
}

/// The area without a sign is the area with its sign, the sign taken off;
/// and the sign is left off unless it is asked for.
pub proof fn lemma_unsigned_area_is_abs_of_signed(half_sum: Scalar)
    ensures
        area_value(half_sum, Some(false)) == area_value(half_sum, Some(true)).abs(),
        area_value(half_sum, None) == area_value(half_sum, Some(false)),
        !area_value(half_sum, Some(false)).negative(),
        area_value(half_sum, Some(false)).abs() == area_value(half_sum, Some(false)),
{
}

} // verus!
