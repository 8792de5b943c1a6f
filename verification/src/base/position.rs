use crate::base::xy::{XYNew, XY};
use crate::scalar::Scalar;
use vstd::prelude::*;

verus! {

/// Where something is.
#[derive(Clone, Copy, Debug)]
pub struct Position {
    pub x: Scalar,
    pub y: Scalar,
}

impl XY for Position {
    open spec fn x(&self) -> Scalar {
        self.x
    }

    open spec fn y(&self) -> Scalar {
        self.y
    }

    fn get_x(&self) -> (x: Scalar) {
        self.x
    }

    fn get_y(&self) -> (y: Scalar) {
        self.y
    }

    fn set_x(&mut self, x: Scalar) {
        self.x = x;
    }

    fn set_y(&mut self, y: Scalar) {
        self.y = y;
    }
}

impl XYNew for Position {
    fn new(x: Scalar, y: Scalar) -> (made: Self) {
        Position { x, y }
    }
}

impl Default for Position {
    fn default() -> (made: Self)
        ensures
            made.x.bits == 0,
            made.y.bits == 0,
    {
        Position { x: Scalar::zero(), y: Scalar::zero() }
    }
}

} // verus!
