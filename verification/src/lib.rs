//! Verified core of a WGPU-to-OpenGL texture sharing pipeline over DMA-BUF.
//!
//! The sender exports a rendered texture through EGL into a DMA-BUF file
//! descriptor and sends the descriptor, together with the texture's storage
//! metadata, to a receiver, which imports it again as an OpenGL texture.
//! This crate holds the parts of that pipeline that decide or compute: the
//! wire format of the metadata, the EGL attribute list of the import, the
//! checks that drive the EGL/GL call sequences on both sides, and the
//! read-back layout used to dump a texture as a PNG image.
#![allow(unused_imports)]

pub mod egl;
pub mod wire;
pub mod import;
pub mod export;
pub mod readback;
pub mod slint_renderer;
