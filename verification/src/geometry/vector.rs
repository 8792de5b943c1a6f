use crate::base::xy::{XYNew, XY};
use crate::scalar::Scalar;
use vstd::prelude::*;

verus! {

/// A point or a direction in the plane.
#[derive(Clone, Copy, Debug)]
pub struct Vector {
    pub x: Scalar,
    pub y: Scalar,
}

impl XY for Vector {
    open spec fn x(&self) -> Scalar {
        self.x
    }

    open spec fn y(&self) -> Scalar {
        self.y
    }

    fn get_x(&self) -> (x: Scalar) {
        self.x
    }

    fn get_y(&self) -> (y: Scalar) {
        self.y
    }

    fn set_x(&mut self, x: Scalar) {
        self.x = x;
    }

    fn set_y(&mut self, y: Scalar) {
        self.y = y;
    }
}

impl XYNew for Vector {
    fn new(x: Scalar, y: Scalar) -> (made: Self) {
        Vector { x, y }
    }
}

impl Vector {
    pub fn create(x: Scalar, y: Scalar) -> (made: Vector)
        ensures
            made == (Vector { x, y }),
    {
        Vector { x, y }
    }
}

} // verus!
