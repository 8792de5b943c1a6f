use crate::base::xy::XY;
use crate::geometry::vector::Vector;
use crate::scalar::Scalar;
use vstd::prelude::*;

verus! {

/// A corner of a polygon: a point, its place in the polygon it was made for,
/// whether it was put in to round a corner, and the body that owns it (by
/// the body's id).
#[derive(Clone, Copy, Debug)]
pub struct Vertex {
    pub body: Option<u128>,
    pub x: Scalar,
    pub y: Scalar,
    pub index: usize,
    pub is_internal: bool,
}

impl XY for Vertex {
    open spec fn x(&self) -> Scalar {
        self.x
    }

    open spec fn y(&self) -> Scalar {
        self.y
    }

    fn get_x(&self) -> (x: Scalar) {
        self.x
    }

    fn get_y(&self) -> (y: Scalar) {
        self.y
    }

    fn set_x(&mut self, x: Scalar)
        ensures
            *final(self) == (Vertex { x, ..*old(self) }),
    {
        self.x = x;
    }

    fn set_y(&mut self, y: Scalar)
        ensures
            *final(self) == (Vertex { y, ..*old(self) }),
    {
        self.y = y;
    }

    fn set_x_y(&mut self, x: Scalar, y: Scalar)
        ensures
            *final(self) == (Vertex { x, y, ..*old(self) }),
    {
        self.x = x;
        self.y = y;
    }

    fn neg(&mut self)
        ensures
            *final(self) == (Vertex { x: old(self).x.neg(), y: old(self).y.neg(), ..*old(self) }),
    {
        self.x = self.x.neg();
        self.y = self.y.neg();
    }

    fn perp(&mut self, negate: bool)
        ensures
            *final(self) == (Vertex {
                x: if negate {
                    old(self).y
                } else {
                    old(self).y.neg()
                },
                y: if negate {
                    old(self).x.neg()
                } else {
                    old(self).x
                },
                ..*old(self)
            }),
    {
        let x = self.x;
        let y = self.y;
        if negate {
            self.x = y;
            self.y = x.neg();
        } else {
            self.x = y.neg();
            self.y = x;
        }
    }
}

impl From<Vector> for Vertex {
    fn from(value: Vector) -> (vertex: Self) {
        Vertex::from_xy(None, &value, 0, false)
    }
}

impl vstd::std_specs::convert::FromSpecImpl<Vector> for Vertex {
    open spec fn obeys_from_spec() -> bool {
        true
    }

    open spec fn from_spec(value: Vector) -> Vertex {
        Vertex { body: None, x: value.x, y: value.y, index: 0, is_internal: false }
    }
}

impl Vertex {
    pub fn from_xy(body: Option<u128>, xy: &impl XY, index: usize, is_internal: bool) -> (vertex:
        Self)
        ensures
            vertex == (Vertex { body, x: xy.x(), y: xy.y(), index, is_internal }),
    {
        Vertex::new(body, xy.get_x(), xy.get_y(), index, is_internal)
    }

    pub fn new(body: Option<u128>, x: Scalar, y: Scalar, index: usize, is_internal: bool) -> (vertex:
        Self)
        ensures
            vertex == (Vertex { body, x, y, index, is_internal }),
    {
        Vertex { body, x, y, index, is_internal }
    }

    pub fn get_body(&self) -> (body: Option<u128>)
        ensures
            body == self.body,
    {
        self.body
    }

    pub fn set_body(&mut self, body: u128)
        ensures
            *final(self) == (Vertex { body: Some(body), ..*old(self) }),
    {
        self.body = Some(body);
    }

    pub fn get_index(&self) -> (index: usize)
        ensures
            index == self.index,
    {
        self.index
    }

    pub fn get_is_internal(&self) -> (is_internal: bool)
        ensures
            is_internal == self.is_internal,
    {
        self.is_internal
    }

    pub fn set_is_interal(&mut self, is_internal: bool)
        ensures
            *final(self) == (Vertex { is_internal, ..*old(self) }),
    {
        self.is_internal = is_internal
    }
}

} // verus!
