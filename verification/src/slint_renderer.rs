//! The receiver's renderer for the Slint user interface: it holds the OpenGL
//! texture into which the received DMA-BUF was imported and hands it to Slint
//! as a borrowed 2D RGBA texture of the shared size.
use vstd::prelude::*;
use crate::egl::TEXTURE_DIMS;

verus! {

/// A borrowed 2D RGBA OpenGL texture, as Slint's `BorrowedOpenGLTextureBuilder`
/// takes it: a (non-zero) texture name and the size in texels.
#[derive(PartialEq, Eq, Structural, Debug, Clone, Copy)]
pub struct BorrowedGlTexture {
    pub texture_id: u32,
    pub width: u32,
    pub height: u32,
}

/// Holds the name of the imported texture, which is never 0.
pub struct SlintRenderer {
    texture_id: u32,
}

impl SlintRenderer {
    /// A renderer always holds a texture: the name 0 names none.
    #[verifier::type_invariant]
    spec fn holds_texture(self) -> bool {
        self.texture_id != 0
    }

    /// The name of the imported texture.
    pub closed spec fn spec_texture_id(&self) -> u32 {
        self.texture_id
    }

    /// A renderer for the texture that the import delivered (a non-zero
    /// name, as every texture that an import delivers is).
    pub fn new(texture_id: u32) -> (renderer: Self)
        requires
            texture_id != 0,
        ensures
            renderer.spec_texture_id() == texture_id,
    {
        SlintRenderer { texture_id }
    }

    /// The name of the imported texture; it is never 0.
    pub fn texture_id(&self) -> (id: u32)
        ensures
            id == self.spec_texture_id(),
            id != 0,
    {
        proof {
            use_type_invariant(self);
        }
        self.texture_id
    }

    /// The texture to show: the imported texture at the shared size.
    pub fn render(&self) -> (texture: BorrowedGlTexture)
        ensures
            texture == (BorrowedGlTexture {
                texture_id: self.spec_texture_id(),
                width: TEXTURE_DIMS.0,
                height: TEXTURE_DIMS.1,
            }),
            texture.texture_id != 0,
    {
        proof {
            use_type_invariant(self);
        }
        BorrowedGlTexture { texture_id: self.texture_id, width: TEXTURE_DIMS.0, height: TEXTURE_DIMS.1 }
    }
}

} // verus!
