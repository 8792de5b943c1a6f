use crate::base::sprite::Sprite;
use crate::scalar::Scalar;
use vstd::prelude::*;

verus! {

/// How a body is drawn.
#[derive(Clone, Copy, Debug)]
pub struct Render {
    pub visible: bool,
    pub opacity: Scalar,
    pub sprite: Sprite,
}

impl Render {
    pub fn new(visible: bool, opacity: Scalar, sprite: Sprite) -> (render: Self)
        ensures
            render == (Render { visible, opacity, sprite }),
    {
        Render { visible, opacity, sprite }
    }

    pub fn get_visible(&self) -> (visible: bool)
        ensures
            visible == self.visible,
    {
        self.visible
    }

    pub fn get_opacity(&self) -> (opacity: Scalar)
        ensures
            opacity == self.opacity,
    {
        self.opacity
    }

    pub fn get_sprite(&self) -> (sprite: Sprite)
        ensures
            sprite == self.sprite,
    {
        self.sprite
    }
}

} // verus!
