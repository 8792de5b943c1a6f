use crate::base::velocity::Velocity;
use crate::base::xy::{XYNew, XY};
use crate::geometry::vertex::Vertex;
use crate::geometry::vertices::Vertices;
use crate::scalar::Scalar;
use vstd::prelude::*;

verus! {

/// One corner of a box.
#[derive(Clone, Copy, Debug)]
pub struct BoundsPart {
    pub x: Scalar,
    pub y: Scalar,
}

impl XY for BoundsPart {
    open spec fn x(&self) -> Scalar {
        self.x
    }

    open spec fn y(&self) -> Scalar {
        self.y
    }

    fn get_x(&self) -> (x: Scalar) {
        self.x
    }

    fn get_y(&self) -> (y: Scalar) {
        self.y
    }

    fn set_x(&mut self, x: Scalar) {
        self.x = x;
    }

    fn set_y(&mut self, y: Scalar) {
        self.y = y;
    }
}

impl XYNew for BoundsPart {
    fn new(x: Scalar, y: Scalar) -> (made: Self) {
        BoundsPart { x, y }
    }
}

/// A box with sides along the axes, given by its least and its greatest
/// corner.
#[derive(Clone, Copy, Debug)]
pub struct Bounds {
    pub min: BoundsPart,
    pub max: BoundsPart,
}

/// The greatest of `values`: negative infinity to begin with, then each value
/// in turn takes its place if it is greater. What is not a number is greater
/// than nothing and so is passed over; of equal values the first stays.
pub open spec fn highest(values: Seq<Scalar>) -> Scalar
    decreases values.len(),
{
    if values.len() == 0 {
        Scalar::neg_infinity()
    } else {
        let before = highest(values.drop_last());
        if values.last().gt(before) {
            values.last()
        } else {
            before
        }
    }
}

/// The least of `values`: infinity to begin with, then each value in turn
/// takes its place if it is less.
pub open spec fn lowest(values: Seq<Scalar>) -> Scalar
    decreases values.len(),
{
    if values.len() == 0 {
        Scalar::infinity()
    } else {
        let before = lowest(values.drop_last());
        if values.last().lt(before) {
            values.last()
        } else {
            before
        }
    }
}

/// The first coordinates of the corners.
pub open spec fn xs(vertices: Seq<Vertex>) -> Seq<Scalar> {
    vertices.map_values(|vertex: Vertex| vertex.x)
}

/// The second coordinates of the corners.
pub open spec fn ys(vertices: Seq<Vertex>) -> Seq<Scalar> {
    vertices.map_values(|vertex: Vertex| vertex.y)
}

/// The box around a polygon. Around no corner at all it is turned inside
/// out, from infinity to negative infinity.
pub open spec fn hull_box(vertices: Seq<Vertex>) -> Bounds {
    Bounds {
        min: BoundsPart { x: lowest(xs(vertices)), y: lowest(ys(vertices)) },
        max: BoundsPart { x: highest(xs(vertices)), y: highest(ys(vertices)) },
    }
}

/// One side of a box after a sweep along one axis by `velocity`: a velocity
/// above zero moves the greatest side to `swept_max`, any other moves the
/// least side to `swept_min`.
pub open spec fn swept_side(
    min: Scalar,
    max: Scalar,
    velocity: Scalar,
    swept_min: Scalar,
    swept_max: Scalar,
) -> (Scalar, Scalar) {
    if velocity.gt(Scalar::zero()) {
        (min, swept_max)
    } else {
        (swept_min, max)
    }
}

impl Bounds {
    /// The point `(x, y)` lies in the box, its border included.
    pub open spec fn holds(&self, x: Scalar, y: Scalar) -> bool {
        &&& x.ge(self.min.x)
        &&& x.le(self.max.x)
        &&& y.ge(self.min.y)
        &&& y.le(self.max.y)
    }

    /// The two boxes share a point.
    pub open spec fn meets(&self, other: &Bounds) -> bool {
        &&& self.min.x.le(other.max.x)
        &&& self.max.x.ge(other.min.x)
        &&& self.max.y.ge(other.min.y)
        &&& self.min.y.le(other.max.y)
    }

    pub fn new(min: BoundsPart, max: BoundsPart) -> (bounds: Self)
        ensures
            bounds == (Bounds { min, max }),
    {
        Bounds { min, max }
    }

    pub fn get_min(&self) -> (min: BoundsPart)
        ensures
            min == self.min,
    {
        self.min
    }

    pub fn get_max(&self) -> (max: BoundsPart)
        ensures
            max == self.max,
    {
        self.max
    }

    /// Makes this the box around `vertices`.
    pub fn update(&mut self, vertices: &Vertices)
        ensures
            *final(self) == hull_box(vertices@),
    {
        self.min.set_x(Scalar::infinity());
        self.max.set_x(Scalar::neg_infinity());
        self.min.set_y(Scalar::infinity());
        self.max.set_y(Scalar::neg_infinity());

        let mut index: usize = 0;
        while index < vertices.len()
            invariant
                index <= vertices@.len(),
                *self == hull_box(vertices@.subrange(0, index as int)),
            decreases vertices@.len() - index,
        {
            let vertex = vertices.get(index);
            proof {
                let before = vertices@.subrange(0, index as int);
                let after = vertices@.subrange(0, index + 1);
                assert(after.drop_last() == before);
                assert(xs(after).drop_last() == xs(before));
                assert(ys(after).drop_last() == ys(before));
                assert(xs(after).last() == vertex.x);
                assert(ys(after).last() == vertex.y);
            }
            if vertex.get_x().gt(self.max.get_x()) {
                self.max.set_x(vertex.get_x());
            }
            if vertex.get_x().lt(self.min.get_x()) {
                self.min.set_x(vertex.get_x());
            }
            if vertex.get_y().gt(self.max.get_y()) {
                self.max.set_y(vertex.get_y());
            }
            if vertex.get_y().lt(self.min.get_y()) {
                self.min.set_y(vertex.get_y());
            }
            index += 1;
        }
        assert(vertices@.subrange(0, index as int) == vertices@);
    }

    /// Stretches the box along the way of one step. `swept_min` and
    /// `swept_max` are the corners of the box moved by `velocity`; of each
    /// axis the side in the direction of travel takes its moved place.
    pub fn sweep(&mut self, velocity: &Velocity, swept_min: &BoundsPart, swept_max: &BoundsPart)
        ensures
            (final(self).min.x, final(self).max.x) == swept_side(
                old(self).min.x,
                old(self).max.x,
                velocity.x,
                swept_min.x,
                swept_max.x,
            ),
            (final(self).min.y, final(self).max.y) == swept_side(
                old(self).min.y,
                old(self).max.y,
                velocity.y,
                swept_min.y,
                swept_max.y,
            ),
    {
        if velocity.get_x().gt(Scalar::zero()) {
            self.max.set_x(swept_max.get_x());
        } else {
            self.min.set_x(swept_min.get_x());
        }
        if velocity.get_y().gt(Scalar::zero()) {
            self.max.set_y(swept_max.get_y());
        } else {
            self.min.set_y(swept_min.get_y());
        }
    }

    /// The box around `vertices`; without vertices the box that is the
    /// origin alone.
    pub fn create(vertices: Option<Vertices>) -> (bounds: Bounds)
        ensures
            bounds == match vertices {
                Some(vertices) => hull_box(vertices@),
                None => Bounds {
                    min: BoundsPart { x: Scalar::zero(), y: Scalar::zero() },
                    max: BoundsPart { x: Scalar::zero(), y: Scalar::zero() },
                },
            },
    {
        let mut bounds = Bounds {
            min: BoundsPart::new(Scalar::zero(), Scalar::zero()),
            max: BoundsPart::new(Scalar::zero(), Scalar::zero()),
        };
        if let Some(vertices) = vertices {
            bounds.update(&vertices);
        }
        bounds
    }

    pub fn contains(&self, point: &impl XY) -> (inside: bool)
        ensures
            inside == self.holds(point.x(), point.y()),
    {
        point.get_x().ge(self.min.get_x()) && point.get_x().le(self.max.get_x())
            && point.get_y().ge(self.min.get_y()) && point.get_y().le(self.max.get_y())
    }

    pub fn overlaps(bounds_a: &Bounds, bounds_b: &Bounds) -> (overlap: bool)
        ensures
            overlap == bounds_a.meets(bounds_b),
    {
        bounds_a.min.get_x().le(bounds_b.max.get_x()) && bounds_a.max.get_x().ge(
            bounds_b.min.get_x(),
        ) && bounds_a.max.get_y().ge(bounds_b.min.get_y()) && bounds_a.min.get_y().le(
            bounds_b.max.get_y(),
        )
    }
}

/// No value is greater than the greatest, and the greatest is a number:
/// negative infinity or one of the values.
pub proof fn lemma_highest(values: Seq<Scalar>)
    ensures
        !highest(values).nan(),
        forall|i: int| 0 <= i < values.len() ==> !(#[trigger] values[i]).gt(highest(values)),
        highest(values) == Scalar::neg_infinity() || values.contains(highest(values)),
    decreases values.len(),
{
    if values.len() > 0 {
        let front = values.drop_last();
        lemma_highest(front);
        assert forall|i: int| 0 <= i < values.len() implies !(#[trigger] values[i]).gt(
            highest(values),
        ) by {
            if i < values.len() - 1 {
                assert(front[i] == values[i]);
            }
        }
        if front.contains(highest(front)) {
            let at = front.index_of(highest(front));
            assert(values[at] == highest(front));
        }
        assert(values[values.len() - 1] == values.last());
    }
}

/// No value is less than the least, and the least is a number: infinity or
/// one of the values.
pub proof fn lemma_lowest(values: Seq<Scalar>)
    ensures
        !lowest(values).nan(),
        forall|i: int| 0 <= i < values.len() ==> !(#[trigger] values[i]).lt(lowest(values)),
        lowest(values) == Scalar::infinity() || values.contains(lowest(values)),
    decreases values.len(),
{
    if values.len() > 0 {
        let front = values.drop_last();
        lemma_lowest(front);
        assert forall|i: int| 0 <= i < values.len() implies !(#[trigger] values[i]).lt(
            lowest(values),
        ) by {
            if i < values.len() - 1 {
                assert(front[i] == values[i]);
            }
        }
        if front.contains(lowest(front)) {
            let at = front.index_of(lowest(front));
            assert(values[at] == lowest(front));
        }
        assert(values[values.len() - 1] == values.last());
    }
}

/// The box around a polygon holds every corner of it whose coordinates are
/// numbers.
pub proof fn lemma_hull_box_holds_corners(vertices: Seq<Vertex>, i: int)
    requires
        0 <= i < vertices.len(),
        !vertices[i].x.nan(),
        !vertices[i].y.nan(),
    ensures
        hull_box(vertices).holds(vertices[i].x, vertices[i].y),
{
    lemma_highest(xs(vertices));
    lemma_lowest(xs(vertices));
    lemma_highest(ys(vertices));
    lemma_lowest(ys(vertices));
    assert(xs(vertices)[i] == vertices[i].x);
    assert(ys(vertices)[i] == vertices[i].y);
}

/// Two boxes overlap whichever is asked first.
pub proof fn lemma_overlaps_symmetric(a: Bounds, b: Bounds)
    ensures
        a.meets(&b) == b.meets(&a),
{
}

/// Boxes that hold a common point overlap.
pub proof fn lemma_common_point_overlaps(a: Bounds, b: Bounds, x: Scalar, y: Scalar)
    requires
        a.holds(x, y),
        b.holds(x, y),
    ensures
        a.meets(&b),
{
}

} // verus!
