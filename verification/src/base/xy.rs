use crate::scalar::Scalar;
use vstd::prelude::*;

verus! {

/// A pair of coordinates that can be read and written.
pub trait XY {
    spec fn x(&self) -> Scalar;

    spec fn y(&self) -> Scalar;

    fn get_x(&self) -> (x: Scalar)
        ensures
            x == self.x(),
    ;

    fn get_y(&self) -> (y: Scalar)
        ensures
            y == self.y(),
    ;

    fn set_x(&mut self, x: Scalar)
        ensures
            final(self).x() == x,
            final(self).y() == old(self).y(),
    ;

    fn set_y(&mut self, y: Scalar)
        ensures
            final(self).x() == old(self).x(),
            final(self).y() == y,
    ;

    fn set_x_y(&mut self, x: Scalar, y: Scalar)
        ensures
            final(self).x() == x,
            final(self).y() == y,
    {
        self.set_x(x);
        self.set_y(y);
    }

    /// Brings the pair to length one, given its length and each of its
    /// coordinates divided by that length. A pair of length zero has no
    /// direction and becomes the pair of zeros, whatever the quotients are.
    fn normalise_by(&mut self, magnitude: Scalar, quotient_x: Scalar, quotient_y: Scalar)
        ensures
            (final(self).x(), final(self).y()) == normalised(magnitude, quotient_x, quotient_y),
    {
        if magnitude.eq(Scalar::zero()) {
            self.set_x_y(Scalar::zero(), Scalar::zero());
        } else {
            self.set_x_y(quotient_x, quotient_y);
        }
    }

    /// Turns the pair to the opposite direction: both signs flip.
    fn neg(&mut self)
        ensures
            final(self).x() == old(self).x().neg(),
            final(self).y() == old(self).y().neg(),
    {
        let x = self.get_x().neg();
        let y = self.get_y().neg();
        self.set_x_y(x, y);
    }

    /// Turns the pair by a quarter turn: to `(-y, x)`, or with `negate` to
    /// `(y, -x)`.
    fn perp(&mut self, negate: bool)
        ensures
            (final(self).x(), final(self).y()) == quarter_turn(
                (old(self).x(), old(self).y()),
                negate,
            ),
    {
        let x = self.get_x();
        let y = self.get_y();
        if negate {
            self.set_x_y(y, x.neg());
        } else {
            self.set_x_y(y.neg(), x);
        }
    }
}

/// A pair brought to length one: the quotients of its coordinates by its
/// length, or the pair of zeros where the length is zero.
pub open spec fn normalised(
    magnitude: Scalar,
    quotient_x: Scalar,
    quotient_y: Scalar,
) -> (Scalar, Scalar) {
    if magnitude.eq(Scalar::zero()) {
        (Scalar::zero(), Scalar::zero())
    } else {
        (quotient_x, quotient_y)
    }
}

/// The quarter turn of the point `(x, y)`.
pub open spec fn quarter_turn(point: (Scalar, Scalar), negate: bool) -> (Scalar, Scalar) {
    if negate {
        (point.1, point.0.neg())
    } else {
        (point.1.neg(), point.0)
    }
}

/// Two quarter turns the same way are a half turn, which flips both signs;
/// a quarter turn and one back, either way round, change nothing.
pub proof fn lemma_quarter_turns(point: (Scalar, Scalar), negate: bool)
    ensures
        quarter_turn(quarter_turn(point, negate), negate) == (point.0.neg(), point.1.neg()),
        quarter_turn(quarter_turn(point, negate), !negate) == point,
{
    crate::scalar::lemma_neg(point.0, point.1);
}

/// A pair of coordinates that can be made from its two scalars.
pub trait XYNew: XY + Sized {
    fn new(x: Scalar, y: Scalar) -> (made: Self)
        ensures
            made.x() == x,
            made.y() == y,
    ;
}

} // verus!
