use crate::body::body::{Body, BodyView};
use crate::scalar::Scalar;
use vstd::prelude::*;

verus! {

/// What a body was like before it was frozen: the seven properties that
/// freezing overwrites and thawing brings back.
#[derive(Copy, Clone, Debug)]
pub struct BodyOriginal {
    pub density: Scalar,
    pub friction: Scalar,
    pub inertia: Scalar,
    pub inverse_inertia: Scalar,
    pub inverse_mass: Scalar,
    pub mass: Scalar,
    pub resitution: Scalar,
}

/// The seven properties of a body as they stand.
pub open spec fn snapshot(body: BodyView) -> BodyOriginal {
    BodyOriginal {
        density: body.density,
        friction: body.friction,
        inertia: body.inertia,
        inverse_inertia: body.inverse_inertia,
        inverse_mass: body.inverse_mass,
        mass: body.mass,
        resitution: body.resitution,
    }
}

impl BodyOriginal {
    pub fn from(value: &Body) -> (original: Self)
        ensures
            original == snapshot(value@),
    {
        BodyOriginal {
            density: value.get_density(),
            friction: value.get_friction(),
            inertia: value.get_inertia(),
            inverse_inertia: value.get_inverse_inertia(),
            inverse_mass: value.get_inverse_mass(),
            mass: value.get_mass(),
            resitution: value.get_resitution(),
        }
    }

    pub fn set_density(&mut self, value: Scalar)
        ensures
            *final(self) == (BodyOriginal { density: value, ..*old(self) }),
    {
        self.density = value;
    }

    pub fn set_friction(&mut self, value: Scalar)
        ensures
            *final(self) == (BodyOriginal { friction: value, ..*old(self) }),
    {
        self.friction = value;
    }

    pub fn set_inertia(&mut self, value: Scalar)
        ensures
            *final(self) == (BodyOriginal { inertia: value, ..*old(self) }),
    {
        self.inertia = value;
    }

    pub fn set_inverse_inertia(&mut self, value: Scalar)
        ensures
            *final(self) == (BodyOriginal { inverse_inertia: value, ..*old(self) }),
    {
        self.inverse_inertia = value;
    }

    pub fn set_inverse_mass(&mut self, value: Scalar)
        ensures
            *final(self) == (BodyOriginal { inverse_mass: value, ..*old(self) }),
    {
        self.inverse_mass = value;
    }

    pub fn set_mass(&mut self, value: Scalar)
        ensures
            *final(self) == (BodyOriginal { mass: value, ..*old(self) }),
    {
        self.mass = value;
    }

    pub fn set_resitution(&mut self, value: Scalar)
        ensures
            *final(self) == (BodyOriginal { resitution: value, ..*old(self) }),
    {
        self.resitution = value;
    }

    pub fn get_density(&self) -> (density: Scalar)
        ensures
            density == self.density,
    {
        self.density
    }

    pub fn get_friction(&self) -> (friction: Scalar)
        ensures
            friction == self.friction,
    {
        self.friction
    }

    pub fn get_inertia(&self) -> (inertia: Scalar)
        ensures
            inertia == self.inertia,
    {
        self.inertia
    }

    pub fn get_inverse_inertia(&self) -> (inverse_inertia: Scalar)
        ensures
            inverse_inertia == self.inverse_inertia,
    {
        self.inverse_inertia
    }

    pub fn get_inverse_mass(&self) -> (inverse_mass: Scalar)
        ensures
            inverse_mass == self.inverse_mass,
    {
        self.inverse_mass
    }

    pub fn get_mass(&self) -> (mass: Scalar)
        ensures
            mass == self.mass,
    {
        self.mass
    }

    pub fn get_resitution(&self) -> (resitution: Scalar)
        ensures
            resitution == self.resitution,
    {
        self.resitution
    }
}

} // verus!
