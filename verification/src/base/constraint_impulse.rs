use crate::base::xy::XY;
use crate::scalar::Scalar;
use vstd::prelude::*;

verus! {

/// What the constraint solver has pushed and turned a body by, kept for the
/// next step.
#[derive(Clone, Copy, Debug)]
pub struct ConstraintImpulse {
    pub x: Scalar,
    pub y: Scalar,
    pub angle: Scalar,
}

impl XY for ConstraintImpulse {
    open spec fn x(&self) -> Scalar {
        self.x
    }

    open spec fn y(&self) -> Scalar {
        self.y
    }

    fn get_x(&self) -> (x: Scalar) {
        self.x
    }

    fn get_y(&self) -> (y: Scalar) {
        self.y
    }

    fn set_x(&mut self, x: Scalar)
        ensures
            final(self).angle == old(self).angle,
    {
        self.x = x;
    }

    fn set_y(&mut self, y: Scalar)
        ensures
            final(self).angle == old(self).angle,
    {
        self.y = y;
    }

    fn set_x_y(&mut self, x: Scalar, y: Scalar)
        ensures
            final(self).angle == old(self).angle,
    {
        self.x = x;
        self.y = y;
    }
}

impl ConstraintImpulse {
    pub fn new(x: Scalar, y: Scalar, angle: Scalar) -> (impulse: Self)
        ensures
            impulse == (ConstraintImpulse { x, y, angle }),
    {
        ConstraintImpulse { x, y, angle }
    }

    pub fn get_angle(&self) -> (angle: Scalar)
        ensures
            angle == self.angle,
    {
        self.angle
    }
}

impl Default for ConstraintImpulse {
    fn default() -> (impulse: Self)
        ensures
            impulse.x.bits == 0,
            impulse.y.bits == 0,
            impulse.angle.bits == 0,
    {
        ConstraintImpulse { x: Scalar::zero(), y: Scalar::zero(), angle: Scalar::zero() }
    }
}

} // verus!
