//! The receiving side: the EGL attribute list that describes the received
//! DMA-BUF plane, and the checks that drive the EGL/GL calls turning it into
//! an OpenGL texture.
//!
//! The calls themselves are made by the caller. [`ImportStage::next`] takes
//! the outcome of the call in progress and says which call to make next, or
//! that the import failed, or that it is complete with a given texture.
use vstd::prelude::*;
use crate::egl::{
    EGL_DMA_BUF_PLANE0_FD_EXT, EGL_DMA_BUF_PLANE0_MODIFIER_HI_EXT,
    EGL_DMA_BUF_PLANE0_MODIFIER_LO_EXT, EGL_DMA_BUF_PLANE0_OFFSET_EXT,
    EGL_DMA_BUF_PLANE0_PITCH_EXT, EGL_HEIGHT, EGL_LINUX_DRM_FOURCC_EXT, EGL_NONE, EGL_WIDTH,
    EGL_LINUX_DMA_BUF_EXT, GL_NEAREST, GL_TEXTURE_2D, TEXTURE_DIMS,
};
use crate::wire::{
    lemma_wire_roundtrip, metadata_from_wire, metadata_wire_bytes, TextureStorageMetadata,
};

verus! {

/// Number of entries of the import attribute list (eight key/value pairs and
/// the terminating `EGL_NONE`).
pub const IMPORT_ATTRIBS_LEN: usize = 17;

/// The `eglCreateImageKHR` attribute list (target `EGL_LINUX_DMA_BUF_EXT`)
/// that describes plane 0 of the received buffer: its format, the size of the
/// shared texture, the file descriptor, offset and pitch, the format modifier
/// split into its low and high 32 bits, and the terminator.
pub open spec fn import_attribs(meta: TextureStorageMetadata, fd: i32) -> Seq<u32> {
    seq![
        EGL_LINUX_DRM_FOURCC_EXT, meta.fourcc as u32,
        EGL_WIDTH, TEXTURE_DIMS.0,
        EGL_HEIGHT, TEXTURE_DIMS.1,
        EGL_DMA_BUF_PLANE0_FD_EXT, fd as u32,
        EGL_DMA_BUF_PLANE0_OFFSET_EXT, meta.offset as u32,
        EGL_DMA_BUF_PLANE0_PITCH_EXT, meta.stride as u32,
        EGL_DMA_BUF_PLANE0_MODIFIER_LO_EXT, meta.modifiers as u32,
        EGL_DMA_BUF_PLANE0_MODIFIER_HI_EXT, (meta.modifiers >> 32u64) as u32,
        EGL_NONE,
    ]
}

/// The value that an EGL attribute list gives `key`: the list is read as
/// key/value pairs up to the first `EGL_NONE` key, and the value is the one
/// paired with the first occurrence of `key`; `None` if no pair has that key.
pub open spec fn egl_attrib(a: Seq<u32>, key: u32) -> Option<u32>
    decreases a.len(),
{
    if a.len() < 2 || a[0] == EGL_NONE {
        None
    } else if a[0] == key {
        Some(a[1])
    } else {
        egl_attrib(a.skip(2), key)
    }
}

/// Whether `a` is a well-formed EGL attribute list: key/value pairs, none
/// keyed `EGL_NONE`, closed by a single `EGL_NONE` as its last entry.
pub open spec fn egl_attrib_list_terminated(a: Seq<u32>) -> bool
    decreases a.len(),
{
    if a.len() == 1 {
        a[0] == EGL_NONE
    } else {
        a.len() >= 3 && a[0] != EGL_NONE && egl_attrib_list_terminated(a.skip(2))
    }
}

/// The metadata and file descriptor that an import attribute list describes,
/// read back by key: the format, the file descriptor, the offset, the pitch,
/// and the modifier from its low and high halves.
pub open spec fn attribs_plane(a: Seq<u32>) -> (TextureStorageMetadata, i32) {
    let lo = egl_attrib(a, EGL_DMA_BUF_PLANE0_MODIFIER_LO_EXT).unwrap();
    let hi = egl_attrib(a, EGL_DMA_BUF_PLANE0_MODIFIER_HI_EXT).unwrap();
    (
        TextureStorageMetadata {
            fourcc: egl_attrib(a, EGL_LINUX_DRM_FOURCC_EXT).unwrap() as i32,
            offset: egl_attrib(a, EGL_DMA_BUF_PLANE0_OFFSET_EXT).unwrap() as i32,
            modifiers: ((hi as u64) << 32u64) | (lo as u64),
            stride: egl_attrib(a, EGL_DMA_BUF_PLANE0_PITCH_EXT).unwrap() as i32,
        },
        egl_attrib(a, EGL_DMA_BUF_PLANE0_FD_EXT).unwrap() as i32,
    )
}

/// What the import attribute list tells EGL, key by key: the image has the
/// shared texture's width and height whatever the plane's pitch, and plane 0
/// has the metadata's format, offset, pitch and modifier (low and high
/// halves) and the received descriptor; the list is well formed and has
/// these eight pairs and no others.
pub open spec fn describes_plane(a: Seq<u32>, meta: TextureStorageMetadata, fd: i32) -> bool {
    &&& egl_attrib_list_terminated(a)
    &&& a.len() == IMPORT_ATTRIBS_LEN
    &&& egl_attrib(a, EGL_LINUX_DRM_FOURCC_EXT) == Some(meta.fourcc as u32)
    &&& egl_attrib(a, EGL_WIDTH) == Some(TEXTURE_DIMS.0)
    &&& egl_attrib(a, EGL_HEIGHT) == Some(TEXTURE_DIMS.1)
    &&& egl_attrib(a, EGL_DMA_BUF_PLANE0_FD_EXT) == Some(fd as u32)
    &&& egl_attrib(a, EGL_DMA_BUF_PLANE0_OFFSET_EXT) == Some(meta.offset as u32)
    &&& egl_attrib(a, EGL_DMA_BUF_PLANE0_PITCH_EXT) == Some(meta.stride as u32)
    &&& egl_attrib(a, EGL_DMA_BUF_PLANE0_MODIFIER_LO_EXT) == Some(meta.modifiers as u32)
    &&& egl_attrib(a, EGL_DMA_BUF_PLANE0_MODIFIER_HI_EXT) == Some((meta.modifiers >> 32u64) as u32)
}

/// Read key by key, the import attribute list describes exactly the received
/// plane at the shared texture's size, and is a well-formed list closed by
/// `EGL_NONE`.
pub proof fn lemma_import_attribs_by_key(meta: TextureStorageMetadata, fd: i32)
    ensures
        describes_plane(import_attribs(meta, fd), meta, fd),
{
    let a = import_attribs(meta, fd);
    let a1 = a.skip(2);
    let a2 = a1.skip(2);
    let a3 = a2.skip(2);
    let a4 = a3.skip(2);
    let a5 = a4.skip(2);
    let a6 = a5.skip(2);
    let a7 = a6.skip(2);
    let a8 = a7.skip(2);
    assert(a1 =~= a.subrange(2, 17));
    assert(a2 =~= a.subrange(4, 17));
    assert(a3 =~= a.subrange(6, 17));
    assert(a4 =~= a.subrange(8, 17));
    assert(a5 =~= a.subrange(10, 17));
    assert(a6 =~= a.subrange(12, 17));
    assert(a7 =~= a.subrange(14, 17));
    assert(a8 =~= a.subrange(16, 17));
    assert(egl_attrib_list_terminated(a8));
    assert(egl_attrib_list_terminated(a7));
    assert(egl_attrib_list_terminated(a6));
    assert(egl_attrib_list_terminated(a5));
    assert(egl_attrib_list_terminated(a4));
    assert(egl_attrib_list_terminated(a3));
    assert(egl_attrib_list_terminated(a2));
    assert(egl_attrib_list_terminated(a1));
    assert(egl_attrib_list_terminated(a));
    assert(egl_attrib(a7, EGL_DMA_BUF_PLANE0_MODIFIER_HI_EXT) == Some(a[15]));
    assert(egl_attrib(a6, EGL_DMA_BUF_PLANE0_MODIFIER_HI_EXT) == Some(a[15]));
    assert(egl_attrib(a5, EGL_DMA_BUF_PLANE0_MODIFIER_HI_EXT) == Some(a[15]));
    assert(egl_attrib(a4, EGL_DMA_BUF_PLANE0_MODIFIER_HI_EXT) == Some(a[15]));
    assert(egl_attrib(a3, EGL_DMA_BUF_PLANE0_MODIFIER_HI_EXT) == Some(a[15]));
    assert(egl_attrib(a2, EGL_DMA_BUF_PLANE0_MODIFIER_HI_EXT) == Some(a[15]));
    assert(egl_attrib(a1, EGL_DMA_BUF_PLANE0_MODIFIER_HI_EXT) == Some(a[15]));
    assert(egl_attrib(a6, EGL_DMA_BUF_PLANE0_MODIFIER_LO_EXT) == Some(a[13]));
    assert(egl_attrib(a5, EGL_DMA_BUF_PLANE0_MODIFIER_LO_EXT) == Some(a[13]));
    assert(egl_attrib(a4, EGL_DMA_BUF_PLANE0_MODIFIER_LO_EXT) == Some(a[13]));
    assert(egl_attrib(a3, EGL_DMA_BUF_PLANE0_MODIFIER_LO_EXT) == Some(a[13]));
    assert(egl_attrib(a2, EGL_DMA_BUF_PLANE0_MODIFIER_LO_EXT) == Some(a[13]));
    assert(egl_attrib(a1, EGL_DMA_BUF_PLANE0_MODIFIER_LO_EXT) == Some(a[13]));
    assert(egl_attrib(a5, EGL_DMA_BUF_PLANE0_PITCH_EXT) == Some(a[11]));
    assert(egl_attrib(a4, EGL_DMA_BUF_PLANE0_PITCH_EXT) == Some(a[11]));
    assert(egl_attrib(a3, EGL_DMA_BUF_PLANE0_PITCH_EXT) == Some(a[11]));
    assert(egl_attrib(a2, EGL_DMA_BUF_PLANE0_PITCH_EXT) == Some(a[11]));
    assert(egl_attrib(a1, EGL_DMA_BUF_PLANE0_PITCH_EXT) == Some(a[11]));
    assert(egl_attrib(a4, EGL_DMA_BUF_PLANE0_OFFSET_EXT) == Some(a[9]));
    assert(egl_attrib(a3, EGL_DMA_BUF_PLANE0_OFFSET_EXT) == Some(a[9]));
    assert(egl_attrib(a2, EGL_DMA_BUF_PLANE0_OFFSET_EXT) == Some(a[9]));
    assert(egl_attrib(a1, EGL_DMA_BUF_PLANE0_OFFSET_EXT) == Some(a[9]));
    assert(egl_attrib(a3, EGL_DMA_BUF_PLANE0_FD_EXT) == Some(a[7]));
    assert(egl_attrib(a2, EGL_DMA_BUF_PLANE0_FD_EXT) == Some(a[7]));
    assert(egl_attrib(a1, EGL_DMA_BUF_PLANE0_FD_EXT) == Some(a[7]));
    assert(egl_attrib(a2, EGL_HEIGHT) == Some(a[5]));
    assert(egl_attrib(a1, EGL_HEIGHT) == Some(a[5]));
    assert(egl_attrib(a1, EGL_WIDTH) == Some(a[3]));
}

/// Builds the attribute list for importing the received plane.
pub fn dma_buf_import_attribs(meta: &TextureStorageMetadata, fd: i32) -> (attribs: Vec<u32>)
    ensures
        attribs@ == import_attribs(*meta, fd),
        describes_plane(attribs@, *meta, fd),
{
    let mut attribs: Vec<u32> = Vec::with_capacity(IMPORT_ATTRIBS_LEN);
    attribs.push(EGL_LINUX_DRM_FOURCC_EXT);
    attribs.push(meta.fourcc as u32);
    attribs.push(EGL_WIDTH);
    attribs.push(TEXTURE_DIMS.0);
    attribs.push(EGL_HEIGHT);
    attribs.push(TEXTURE_DIMS.1);
    attribs.push(EGL_DMA_BUF_PLANE0_FD_EXT);
    attribs.push(fd as u32);
    attribs.push(EGL_DMA_BUF_PLANE0_OFFSET_EXT);
    attribs.push(meta.offset as u32);
    attribs.push(EGL_DMA_BUF_PLANE0_PITCH_EXT);
    attribs.push(meta.stride as u32);
    attribs.push(EGL_DMA_BUF_PLANE0_MODIFIER_LO_EXT);
    attribs.push(meta.modifiers as u32);
    attribs.push(EGL_DMA_BUF_PLANE0_MODIFIER_HI_EXT);
    attribs.push((meta.modifiers >> 32u64) as u32);
    attribs.push(EGL_NONE);
    assert(attribs@ =~= import_attribs(*meta, fd));
    proof {
        lemma_import_attribs_by_key(*meta, fd);
    }
    attribs
}

/// The attribute list loses nothing: the plane it describes is exactly the
/// metadata and descriptor it was built from (the modifier's two halves
/// recombine to the modifier), and it is a list of key/value pairs closed by
/// `EGL_NONE`.
pub proof fn lemma_import_attribs_lossless(meta: TextureStorageMetadata, fd: i32)
    ensures
        import_attribs(meta, fd).len() == IMPORT_ATTRIBS_LEN,
        import_attribs(meta, fd).last() == EGL_NONE,
        attribs_plane(import_attribs(meta, fd)) == (meta, fd),
{
    let a = import_attribs(meta, fd);
    lemma_import_attribs_by_key(meta, fd);
    let (fourcc, offset, modifiers, stride) = (meta.fourcc, meta.offset, meta.modifiers, meta.stride);
    assert((fourcc as u32) as i32 == fourcc) by (bit_vector);
    assert((offset as u32) as i32 == offset) by (bit_vector);
    assert((stride as u32) as i32 == stride) by (bit_vector);
    assert((fd as u32) as i32 == fd) by (bit_vector);
    assert(((((modifiers >> 32u64) as u32) as u64) << 32u64) | ((modifiers as u32) as u64)
        == modifiers) by (bit_vector);
    assert(a[13] == modifiers as u32 && a[15] == (modifiers >> 32u64) as u32);
}


/// The receiver imports the plane that the sender exported: the metadata
/// sent over the wire and decoded again, put into the import attribute list
/// with the received descriptor, describes that very plane.
pub proof fn lemma_received_plane_is_sent_plane(meta: TextureStorageMetadata, fd: i32)
    ensures
        attribs_plane(import_attribs(metadata_from_wire(metadata_wire_bytes(meta)), fd)) == (
            meta,
            fd,
        ),
{
    lemma_wire_roundtrip(meta);
    lemma_import_attribs_lossless(meta, fd);
}

/// Where an import stands: which call's outcome it waits for.
#[derive(PartialEq, Eq, Structural, Debug, Clone, Copy)]
pub enum ImportStage {
    /// `eglCreateImageKHR` with the import attribute list was issued.
    CreatingImage,
    /// `glGenTextures` for one texture was issued.
    GeneratingTexture,
    /// `glBindTexture(GL_TEXTURE_2D, texture)` was issued.
    BindingTexture { texture: u32 },
    /// `glEGLImageTargetTexture2DOES(GL_TEXTURE_2D, image)` was issued.
    AttachingImage { texture: u32 },
    /// The nearest-neighbour min and mag filters were set.
    SettingFilters { texture: u32 },
    /// `glBindTexture(GL_TEXTURE_2D, 0)` was issued.
    UnbindingTexture { texture: u32 },
    /// The import ended, with a texture or a failure; nothing more is expected.
    Finished,
}

/// The outcome of the call in progress.
#[derive(PartialEq, Eq, Structural, Debug, Clone, Copy)]
pub enum ImportEvent {
    ImageCreated { is_null: bool },
    TextureGenerated { texture: u32, gl_error: u32 },
    TextureBound { gl_error: u32 },
    /// `egl_error_pending` is whether `eglGetError` reported an error.
    ImageAttached { egl_error_pending: bool, gl_error: u32 },
    FiltersSet { gl_error: u32 },
    TextureUnbound { gl_error: u32 },
}

/// Why an import failed.
#[derive(PartialEq, Eq, Structural, Debug, Clone, Copy)]
pub enum ImportError {
    /// `eglCreateImageKHR` returned no image.
    CreateImageFailed,
    GenerateTextureFailed { gl_error: u32 },
    /// `glGenTextures` reported no error but gave the name 0, which names no
    /// texture.
    NoTextureGenerated,
    BindTextureFailed { gl_error: u32 },
    /// EGL reported an error after the image was attached to the texture.
    AttachImageEglError,
    AttachImageFailed { gl_error: u32 },
    SetFiltersFailed { gl_error: u32 },
    UnbindTextureFailed { gl_error: u32 },
}

/// What to do next, with the parameters of the call to make.
#[derive(PartialEq, Eq, Structural, Debug, Clone, Copy)]
pub enum ImportAction {
    /// `eglCreateImageKHR` with no context, no client buffer, this target and
    /// the import attribute list.
    CreateImage { target: u32 },
    /// `glGenTextures` for one texture.
    GenerateTexture,
    /// `glBindTexture(target, texture)`.
    BindTexture { target: u32, texture: u32 },
    /// `glEGLImageTargetTexture2DOES(target, image)`.
    AttachImage { target: u32 },
    /// `glTexParameteri` of `target`: `GL_TEXTURE_MIN_FILTER` to `min_filter`
    /// and `GL_TEXTURE_MAG_FILTER` to `mag_filter`.
    SetFilters { target: u32, min_filter: u32, mag_filter: u32 },
    /// `glBindTexture(target, 0)`.
    UnbindTexture { target: u32 },
    /// The import is complete: `texture` holds the received image.
    Deliver { texture: u32 },
    Fail { error: ImportError },
}

impl ImportStage {
    /// Whether `event` is the outcome of the call that this stage waits for.
    pub open spec fn spec_accepts(self, event: ImportEvent) -> bool {
        match (self, event) {
            (ImportStage::CreatingImage, ImportEvent::ImageCreated { .. }) => true,
            (ImportStage::GeneratingTexture, ImportEvent::TextureGenerated { .. }) => true,
            (ImportStage::BindingTexture { .. }, ImportEvent::TextureBound { .. }) => true,
            (ImportStage::AttachingImage { .. }, ImportEvent::ImageAttached { .. }) => true,
            (ImportStage::SettingFilters { .. }, ImportEvent::FiltersSet { .. }) => true,
            (ImportStage::UnbindingTexture { .. }, ImportEvent::TextureUnbound { .. }) => true,
            _ => false,
        }
    }

    /// Whether `event` is the outcome of the call that this stage waits for.
    pub fn accepts(&self, event: &ImportEvent) -> (b: bool)
        ensures
            b == self.spec_accepts(*event),
    {
        match (self, event) {
            (ImportStage::CreatingImage, ImportEvent::ImageCreated { .. }) => true,
            (ImportStage::GeneratingTexture, ImportEvent::TextureGenerated { .. }) => true,
            (ImportStage::BindingTexture { .. }, ImportEvent::TextureBound { .. }) => true,
            (ImportStage::AttachingImage { .. }, ImportEvent::ImageAttached { .. }) => true,
            (ImportStage::SettingFilters { .. }, ImportEvent::FiltersSet { .. }) => true,
            (ImportStage::UnbindingTexture { .. }, ImportEvent::TextureUnbound { .. }) => true,
            _ => false,
        }
    }
}

/// One step of an import, on an outcome that the stage accepts: each call
/// must succeed (a non-null image, GL error code 0, no pending EGL error, a
/// non-zero texture name) for the next to be made; the first failure ends the
/// import with its error.
pub open spec fn import_step(stage: ImportStage, event: ImportEvent) -> (ImportStage, ImportAction) {
    let finish_fail = |error: ImportError| (ImportStage::Finished, ImportAction::Fail { error });
    match (stage, event) {
        (ImportStage::CreatingImage, ImportEvent::ImageCreated { is_null }) => if is_null {
            finish_fail(ImportError::CreateImageFailed)
        } else {
            (ImportStage::GeneratingTexture, ImportAction::GenerateTexture)
        },
        (ImportStage::GeneratingTexture, ImportEvent::TextureGenerated { texture, gl_error }) => if gl_error != 0 {
            finish_fail(ImportError::GenerateTextureFailed { gl_error })
        } else if texture == 0 {
            finish_fail(ImportError::NoTextureGenerated)
        } else {
            (ImportStage::BindingTexture { texture }, ImportAction::BindTexture { target: GL_TEXTURE_2D, texture })
        },
        (ImportStage::BindingTexture { texture }, ImportEvent::TextureBound { gl_error }) => if gl_error != 0 {
            finish_fail(ImportError::BindTextureFailed { gl_error })
        } else {
            (ImportStage::AttachingImage { texture }, ImportAction::AttachImage { target: GL_TEXTURE_2D })
        },
        (ImportStage::AttachingImage { texture }, ImportEvent::ImageAttached { egl_error_pending, gl_error }) => if egl_error_pending {
            finish_fail(ImportError::AttachImageEglError)
        } else if gl_error != 0 {
            finish_fail(ImportError::AttachImageFailed { gl_error })
        } else {
            (ImportStage::SettingFilters { texture }, ImportAction::SetFilters { target: GL_TEXTURE_2D, min_filter: GL_NEAREST, mag_filter: GL_NEAREST })
        },
        (ImportStage::SettingFilters { texture }, ImportEvent::FiltersSet { gl_error }) => if gl_error != 0 {
            finish_fail(ImportError::SetFiltersFailed { gl_error })
        } else {
            (ImportStage::UnbindingTexture { texture }, ImportAction::UnbindTexture { target: GL_TEXTURE_2D })
        },
        (ImportStage::UnbindingTexture { texture }, ImportEvent::TextureUnbound { gl_error }) => if gl_error != 0 {
            finish_fail(ImportError::UnbindTextureFailed { gl_error })
        } else {
            (ImportStage::Finished, ImportAction::Deliver { texture })
        },
        _ => (stage, ImportAction::Fail { error: ImportError::CreateImageFailed }),
    }
}

impl ImportStage {
    /// How an import starts: an EGL image of the received DMA-BUF is created
    /// (target `EGL_LINUX_DMA_BUF_EXT`), and the import waits for it.
    pub fn start() -> (res: (ImportStage, ImportAction))
        ensures
            res == (ImportStage::CreatingImage, ImportAction::CreateImage { target: EGL_LINUX_DMA_BUF_EXT }),
    {
        (ImportStage::CreatingImage, ImportAction::CreateImage { target: EGL_LINUX_DMA_BUF_EXT })
    }

    /// Takes the outcome of the call in progress; gives the next stage and what
    /// to do.
    pub fn next(self, event: ImportEvent) -> (res: (ImportStage, ImportAction))
        requires
            self.spec_accepts(event),
        ensures
            res == import_step(self, event),
    {
        match (self, event) {
            (ImportStage::CreatingImage, ImportEvent::ImageCreated { is_null }) => if is_null {
                (ImportStage::Finished, ImportAction::Fail { error: ImportError::CreateImageFailed })
            } else {
                (ImportStage::GeneratingTexture, ImportAction::GenerateTexture)
            },
            (ImportStage::GeneratingTexture, ImportEvent::TextureGenerated { texture, gl_error }) => if gl_error != 0 {
                (ImportStage::Finished, ImportAction::Fail { error: ImportError::GenerateTextureFailed { gl_error } })
            } else if texture == 0 {
                (ImportStage::Finished, ImportAction::Fail { error: ImportError::NoTextureGenerated })
            } else {
                (ImportStage::BindingTexture { texture }, ImportAction::BindTexture { target: GL_TEXTURE_2D, texture })
            },
            (ImportStage::BindingTexture { texture }, ImportEvent::TextureBound { gl_error }) => if gl_error != 0 {
                (ImportStage::Finished, ImportAction::Fail { error: ImportError::BindTextureFailed { gl_error } })
            } else {
                (ImportStage::AttachingImage { texture }, ImportAction::AttachImage { target: GL_TEXTURE_2D })
            },
            (ImportStage::AttachingImage { texture }, ImportEvent::ImageAttached { egl_error_pending, gl_error }) => if egl_error_pending {
                (ImportStage::Finished, ImportAction::Fail { error: ImportError::AttachImageEglError })
            } else if gl_error != 0 {
                (ImportStage::Finished, ImportAction::Fail { error: ImportError::AttachImageFailed { gl_error } })
            } else {
                (ImportStage::SettingFilters { texture }, ImportAction::SetFilters { target: GL_TEXTURE_2D, min_filter: GL_NEAREST, mag_filter: GL_NEAREST })
            },
            (ImportStage::SettingFilters { texture }, ImportEvent::FiltersSet { gl_error }) => if gl_error != 0 {
                (ImportStage::Finished, ImportAction::Fail { error: ImportError::SetFiltersFailed { gl_error } })
            } else {
                (ImportStage::UnbindingTexture { texture }, ImportAction::UnbindTexture { target: GL_TEXTURE_2D })
            },
            (ImportStage::UnbindingTexture { texture }, ImportEvent::TextureUnbound { gl_error }) => if gl_error != 0 {
                (ImportStage::Finished, ImportAction::Fail { error: ImportError::UnbindTextureFailed { gl_error } })
            } else {
                (ImportStage::Finished, ImportAction::Deliver { texture })
            },
            _ => {
                proof {
                    assert(false);
                }
                (self, ImportAction::Fail { error: ImportError::CreateImageFailed })
            },
        }
    }
}


/// Runs a sequence of outcomes from `stage`: the final stage and the actions
/// taken, or `None` if some outcome is not the one its stage waits for.
pub open spec fn import_run(stage: ImportStage, events: Seq<ImportEvent>) -> Option<
    (ImportStage, Seq<ImportAction>),
>
    decreases events.len(),
{
    if events.len() == 0 {
        Some((stage, Seq::empty()))
    } else if !stage.spec_accepts(events[0]) {
        None
    } else {
        let (next, action) = import_step(stage, events[0]);
        match import_run(next, events.drop_first()) {
            Some((last, actions)) => Some((last, seq![action] + actions)),
            None => None,
        }
    }
}

/// The outcomes of an import in which every call succeeds and `glGenTextures`
/// names `texture`.
pub open spec fn successful_import_events(texture: u32) -> Seq<ImportEvent> {
    seq![
        ImportEvent::ImageCreated { is_null: false },
        ImportEvent::TextureGenerated { texture, gl_error: 0 },
        ImportEvent::TextureBound { gl_error: 0 },
        ImportEvent::ImageAttached { egl_error_pending: false, gl_error: 0 },
        ImportEvent::FiltersSet { gl_error: 0 },
        ImportEvent::TextureUnbound { gl_error: 0 },
    ]
}

/// How many calls of an import precede the one that `stage` waits for.
pub open spec fn import_stage_index(stage: ImportStage) -> int {
    match stage {
        ImportStage::CreatingImage => 0,
        ImportStage::GeneratingTexture => 1,
        ImportStage::BindingTexture { .. } => 2,
        ImportStage::AttachingImage { .. } => 3,
        ImportStage::SettingFilters { .. } => 4,
        ImportStage::UnbindingTexture { .. } => 5,
        ImportStage::Finished => 6,
    }
}

/// The texture that `stage` already holds, if it holds one.
pub open spec fn import_stage_texture(stage: ImportStage) -> Option<u32> {
    match stage {
        ImportStage::BindingTexture { texture } => Some(texture),
        ImportStage::AttachingImage { texture } => Some(texture),
        ImportStage::SettingFilters { texture } => Some(texture),
        ImportStage::UnbindingTexture { texture } => Some(texture),
        _ => None,
    }
}

/// When every call succeeds, the import generates a texture, binds it to
/// `GL_TEXTURE_2D`, attaches the EGL image to it, sets its min and mag filters
/// to `GL_NEAREST`, unbinds `GL_TEXTURE_2D`, and delivers the texture that
/// `glGenTextures` named.
pub proof fn lemma_import_success(texture: u32)
    requires
        texture != 0,
    ensures
        import_run(ImportStage::CreatingImage, successful_import_events(texture)) == Some((
            ImportStage::Finished,
            seq![
                ImportAction::GenerateTexture,
                ImportAction::BindTexture { target: GL_TEXTURE_2D, texture },
                ImportAction::AttachImage { target: GL_TEXTURE_2D },
                ImportAction::SetFilters { target: GL_TEXTURE_2D, min_filter: GL_NEAREST, mag_filter: GL_NEAREST },
                ImportAction::UnbindTexture { target: GL_TEXTURE_2D },
                ImportAction::Deliver { texture },
            ],
        )),
{
    let evs = successful_import_events(texture);
    reveal_with_fuel(import_run, 7);
    assert(evs.drop_first() =~= evs.subrange(1, 6));
    assert(evs.subrange(1, 6).drop_first() =~= evs.subrange(2, 6));
    assert(evs.subrange(2, 6).drop_first() =~= evs.subrange(3, 6));
    assert(evs.subrange(3, 6).drop_first() =~= evs.subrange(4, 6));
    assert(evs.subrange(4, 6).drop_first() =~= evs.subrange(5, 6));
    assert(evs.subrange(5, 6).drop_first() =~= Seq::<ImportEvent>::empty());
    let acts = seq![
        ImportAction::GenerateTexture,
        ImportAction::BindTexture { target: GL_TEXTURE_2D, texture },
        ImportAction::AttachImage { target: GL_TEXTURE_2D },
        ImportAction::SetFilters { target: GL_TEXTURE_2D, min_filter: GL_NEAREST, mag_filter: GL_NEAREST },
        ImportAction::UnbindTexture { target: GL_TEXTURE_2D },
        ImportAction::Deliver { texture },
    ];
    assert(import_run(ImportStage::UnbindingTexture { texture }, evs.subrange(5, 6)) == Some(
        (ImportStage::Finished, acts.subrange(5, 6)),
    )) by {
        assert(seq![ImportAction::Deliver { texture }] + Seq::<ImportAction>::empty()
            =~= acts.subrange(5, 6));
    }
    assert(seq![acts[4]] + acts.subrange(5, 6) =~= acts.subrange(4, 6));
    assert(seq![acts[3]] + acts.subrange(4, 6) =~= acts.subrange(3, 6));
    assert(seq![acts[2]] + acts.subrange(3, 6) =~= acts.subrange(2, 6));
    assert(seq![acts[1]] + acts.subrange(2, 6) =~= acts.subrange(1, 6));
    assert(seq![acts[0]] + acts.subrange(1, 6) =~= acts);
}

proof fn lemma_import_run_delivers(stage: ImportStage, events: Seq<ImportEvent>, texture: u32)
    requires
        import_run(stage, events) matches Some((last, actions)) && actions.contains(
            ImportAction::Deliver { texture },
        ),
        import_stage_texture(stage) matches Some(t) ==> t != 0,
    ensures
        texture != 0,
        import_stage_index(stage) < 6,
        import_stage_texture(stage) matches Some(t) ==> t == texture,
        events == successful_import_events(texture).subrange(import_stage_index(stage), 6),
    decreases events.len(),
{
    let (last, actions) = import_run(stage, events).unwrap();
    if events.len() == 0 {
        assert(actions.len() == 0);
    } else {
        let (next, action) = import_step(stage, events[0]);
        let rest = events.drop_first();
        let (last2, actions2) = import_run(next, rest).unwrap();
        assert(actions == seq![action] + actions2);
        let k = choose|k: int| 0 <= k < actions.len() && actions[k] == ImportAction::Deliver { texture };
        if k == 0 {
            assert(action == ImportAction::Deliver { texture });
            assert(next == ImportStage::Finished);
            if rest.len() > 0 {
                assert(!next.spec_accepts(rest[0]));
            }
            assert(rest.len() == 0);
        } else {
            assert(actions2[k - 1] == ImportAction::Deliver { texture });
            assert(actions2.contains(ImportAction::Deliver { texture }));
            lemma_import_run_delivers(next, rest, texture);
        }
        let full = successful_import_events(texture);
        let i = import_stage_index(stage);
        assert(events =~= seq![events[0]] + rest);
        assert(full.subrange(i, 6) =~= seq![full[i]] + full.subrange(i + 1, 6));
    }
}

/// An import delivers a texture only when every call succeeded, in the order
/// create image, generate texture, bind, attach image, set filters, unbind,
/// and the texture is the one that `glGenTextures` named: any failure ends
/// the import without a texture. That texture is never the name 0.
pub proof fn lemma_import_delivers_only_on_success(events: Seq<ImportEvent>, texture: u32)
    requires
        import_run(ImportStage::CreatingImage, events) matches Some((last, actions))
            && actions.contains(ImportAction::Deliver { texture }),
    ensures
        events == successful_import_events(texture),
        texture != 0,
{
    lemma_import_run_delivers(ImportStage::CreatingImage, events, texture);
    assert(successful_import_events(texture).subrange(0, 6) =~= successful_import_events(texture));
}

/// A failed call ends the import: it is finished and expects nothing more.
pub proof fn lemma_import_failure_is_final(stage: ImportStage, event: ImportEvent, other: ImportEvent)
    requires
        stage.spec_accepts(event),
        import_step(stage, event).1 is Fail,
    ensures
        import_step(stage, event).0 == ImportStage::Finished,
        !import_step(stage, event).0.spec_accepts(other),
{
}

} // verus!
