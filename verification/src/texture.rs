use vstd::prelude::*;

verus! {

/// A texture object of the rendering context, known by the name the driver gave it.
#[derive(Clone, Copy, Debug, PartialEq, Eq, Structural)]
pub struct Texture {
    id: u32,
}

impl Texture {
    /// The driver's name for this texture.
    pub closed spec fn name(self) -> u32 {
        self.id
    }

    /// Wraps a texture name obtained from the driver.
    pub fn new(id: u32) -> (texture: Texture)
        ensures
            texture.name() == id,
    {
        Texture { id }
    }

    pub fn id(&self) -> (id: u32)
        ensures
            id == self.name(),
    {
        self.id
    }
}

} // verus!
