use crate::base::xy::{XYNew, XY};
use crate::scalar::Scalar;
use vstd::prelude::*;

verus! {

/// How far something moves in one step.
#[derive(Clone, Copy, Debug)]
pub struct Velocity {
    pub x: Scalar,
    pub y: Scalar,
}

impl XY for Velocity {
    open spec fn x(&self) -> Scalar {
        self.x
    }

    open spec fn y(&self) -> Scalar {
        self.y
    }

    fn get_x(&self) -> (x: Scalar) {
        self.x
    }

    fn get_y(&self) -> (y: Scalar) {
        self.y
    }

    fn set_x(&mut self, x: Scalar) {
        self.x = x;
    }

    fn set_y(&mut self, y: Scalar) {
        self.y = y;
    }
}

impl XYNew for Velocity {
    fn new(x: Scalar, y: Scalar) -> (made: Self) {
        Velocity { x, y }
    }
}

impl Default for Velocity {
    fn default() -> (made: Self)
        ensures
            made.x.bits == 0,
            made.y.bits == 0,
    {
        Velocity { x: Scalar::zero(), y: Scalar::zero() }
    }
}

} // verus!
