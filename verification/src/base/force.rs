use crate::base::xy::XY;
use crate::scalar::Scalar;
use vstd::prelude::*;

verus! {

/// A force gathered over one step.
#[derive(Clone, Copy, Debug)]
pub struct Force {
    pub x: Scalar,
    pub y: Scalar,
}

impl XY for Force {
    open spec fn x(&self) -> Scalar {
        self.x
    }

    open spec fn y(&self) -> Scalar {
        self.y
    }

    fn get_x(&self) -> (x: Scalar) {
        self.x
    }

    fn get_y(&self) -> (y: Scalar) {
        self.y
    }

    fn set_x(&mut self, x: Scalar) {
        self.x = x;
    }

    fn set_y(&mut self, y: Scalar) {
        self.y = y;
    }
}

impl Force {
    pub fn new(x: Scalar, y: Scalar) -> (made: Self)
        ensures
            made == (Force { x, y }),
    {
        Force { x, y }
    }
}

impl Default for Force {
    fn default() -> (made: Self)
        ensures
            made.x.bits == 0,
            made.y.bits == 0,
    {
        Force { x: Scalar::zero(), y: Scalar::zero() }
    }
}

} // verus!
