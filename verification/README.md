# dma_buf

Sharing a WGPU-rendered texture with another process (or another GL user in
the same process) through a Linux DMA-BUF.

The sender renders into a texture with WGPU's OpenGL backend, exports the
OpenGL texture through EGL (`eglCreateImageKHR`,
`eglExportDMABUFImageQueryMESA`, `eglExportDMABUFImageMESA`) into a DMA-BUF
file descriptor, and sends the descriptor with the plane's storage metadata
over a Unix datagram socket. The receiver imports the buffer with
`eglCreateImageKHR` (`EGL_LINUX_DMA_BUF_EXT`) and
`glEGLImageTargetTexture2DOES` as an OpenGL texture.

## Layout

- `src/` is the verified library (Verus):
  - `wire.rs`: the metadata and its 20-byte wire format (bincode's default
    encoding), with the round-trip laws;
  - `export.rs`: the checks that drive the EGL export calls, as a state
    machine, with the laws that it delivers exactly what the calls reported
    and only when all of them succeeded;
  - `import.rs`: the EGL import attribute list (lossless) and the checks that
    drive the EGL/GL import calls;
  - `readback.rs`: the read-back layout of a texture and its PNG encoding;
  - `slint_renderer.rs`: the texture handed to Slint;
  - `egl.rs`: EGL enumerants and the texture size.
- `app/` is the program: WGPU rendering, the EGL/GL calls, the sockets.
- `tests/` runs the library on concrete values.
