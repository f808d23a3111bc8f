//! EGL and OpenGL enumerants used by the DMA-BUF export and import, and the
//! size of the shared texture.
use vstd::prelude::*;

verus! {

pub const EGL_GL_TEXTURE_2D_KHR: u32 = 12465;
pub const EGL_NONE: u32 = 12344;
pub const EGL_HEIGHT: u32 = 12374;
pub const EGL_WIDTH: u32 = 12375;
pub const EGL_LINUX_DMA_BUF_EXT: u32 = 12912;
pub const EGL_LINUX_DRM_FOURCC_EXT: u32 = 12913;
pub const EGL_DMA_BUF_PLANE0_FD_EXT: u32 = 12914;
pub const EGL_DMA_BUF_PLANE0_OFFSET_EXT: u32 = 12915;
pub const EGL_DMA_BUF_PLANE0_PITCH_EXT: u32 = 12916;
pub const EGL_DMA_BUF_PLANE0_MODIFIER_LO_EXT: u32 = 13379;
pub const EGL_DMA_BUF_PLANE0_MODIFIER_HI_EXT: u32 = 13380;

/// OpenGL enumerants used by the import.
pub const GL_TEXTURE_2D: u32 = 0x0DE1;
pub const GL_NEAREST: u32 = 0x2600;

/// Width and height, in texels, of the texture that is rendered and shared.
pub const TEXTURE_DIMS: (u32, u32) = (256, 256);

} // verus!
