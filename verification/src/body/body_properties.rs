use crate::base::position::Position;
use crate::base::xy::XY;
use crate::scalar::Scalar;
use vstd::prelude::*;

verus! {

/// The totals of a body made of parts.
#[derive(Clone, Copy, Debug)]
pub struct BodyProperties {
    pub mass: Scalar,
    pub area: Scalar,
    pub inertia: Scalar,
    pub centre: Position,
}

impl BodyProperties {
    pub fn new(mass: Scalar, area: Scalar, inertia: Scalar, centre: Position) -> (properties: Self)
        ensures
            properties == (BodyProperties { mass, area, inertia, centre }),
    {
        BodyProperties { mass, area, inertia, centre }
    }

    pub fn get_mass(&self) -> (mass: Scalar)
        ensures
            mass == self.mass,
    {
        self.mass
    }

    pub fn get_area(&self) -> (area: Scalar)
        ensures
            area == self.area,
    {
        self.area
    }

    pub fn get_inertia(&self) -> (inertia: Scalar)
        ensures
            inertia == self.inertia,
    {
        self.inertia
    }

    pub fn get_centre(&self) -> (centre: Position)
        ensures
            centre == self.centre,
    {
        self.centre
    }

    pub fn set_mass(&mut self, mass: Scalar)
        ensures
            *final(self) == (BodyProperties { mass, ..*old(self) }),
    {
        self.mass = mass;
    }

    pub fn set_area(&mut self, area: Scalar)
        ensures
            *final(self) == (BodyProperties { area, ..*old(self) }),
    {
        self.area = area;
    }

    pub fn set_inertia(&mut self, inertia: Scalar)
        ensures
            *final(self) == (BodyProperties { inertia, ..*old(self) }),
    {
        self.inertia = inertia;
    }

    pub fn set_centre(&mut self, centre: &impl XY)
        ensures
            *final(self) == (BodyProperties {
                centre: Position { x: centre.x(), y: centre.y() },
                ..*old(self)
            }),
    {
        self.centre.x = centre.get_x();
        self.centre.y = centre.get_y();
    }
}

impl XY for BodyProperties {
    open spec fn x(&self) -> Scalar {
        self.centre.x
    }

    open spec fn y(&self) -> Scalar {
        self.centre.y
    }

    fn set_x(&mut self, x: Scalar)
        ensures
            *final(self) == (BodyProperties {
                centre: Position { x, y: old(self).centre.y },
                ..*old(self)
            }),
    {
        self.centre.x = x;
    }

    fn set_y(&mut self, y: Scalar)
        ensures
            *final(self) == (BodyProperties {
                centre: Position { x: old(self).centre.x, y },
                ..*old(self)
            }),
    {
        self.centre.y = y;
    }

    fn set_x_y(&mut self, x: Scalar, y: Scalar)
        ensures
            *final(self) == (BodyProperties { centre: Position { x, y }, ..*old(self) }),
    {
        self.centre.x = x;
        self.centre.y = y;
    }

    fn get_x(&self) -> (x: Scalar) {
        self.centre.x
    }

    fn get_y(&self) -> (y: Scalar) {
        self.centre.y
    }
}

} // verus!
