use crate::scalar::Scalar;
use vstd::prelude::*;

verus! {

/// How a picture is scaled and shifted over a body.
#[derive(Clone, Copy, Debug)]
pub struct Sprite {
    pub x_scale: Scalar,
    pub y_scale: Scalar,
    pub x_offset: Scalar,
    pub y_offset: Scalar,
}

impl Sprite {
    pub fn new(x_scale: Scalar, y_scale: Scalar, x_offset: Scalar, y_offset: Scalar) -> (sprite:
        Self)
        ensures
            sprite == (Sprite { x_scale, y_scale, x_offset, y_offset }),
    {
        Sprite { x_scale, y_scale, x_offset, y_offset }
    }

    pub fn get_x_scale(&self) -> (x_scale: Scalar)
        ensures
            x_scale == self.x_scale,
    {
        self.x_scale
    }

    pub fn get_y_scale(&self) -> (y_scale: Scalar)
        ensures
            y_scale == self.y_scale,
    {
        self.y_scale
    }

    pub fn get_x_offset(&self) -> (x_offset: Scalar)
        ensures
            x_offset == self.x_offset,
    {
        self.x_offset
    }

    pub fn get_y_offset(&self) -> (y_offset: Scalar)
        ensures
            y_offset == self.y_offset,
    {
        self.y_offset
    }
}

} // verus!
