use dma_buf::egl::{EGL_LINUX_DMA_BUF_EXT, EGL_NONE, GL_NEAREST, GL_TEXTURE_2D, TEXTURE_DIMS};
use dma_buf::import::{dma_buf_import_attribs, ImportAction, ImportError, ImportEvent, ImportStage};
use dma_buf::wire::{decode_metadata, encode_metadata, TextureStorageMetadata};

#[test]
fn import_attribs_describe_plane() {
    let meta = TextureStorageMetadata { fourcc: 0x3432_4241, offset: 64, modifiers: 0x0100_0000_0000_0002, stride: 1024 };
    let attribs = dma_buf_import_attribs(&meta, 7);
    assert_eq!(
        attribs,
        vec![
            12913, 0x3432_4241, 12375, 256, 12374, 256, 12914, 7, 12915, 64, 12916, 1024, 13379,
            2, 13380, 0x0100_0000, 12344,
        ]
    );
    assert_eq!(*attribs.last().unwrap(), EGL_NONE);
    assert_eq!(TEXTURE_DIMS, (256, 256));
    assert_eq!((GL_TEXTURE_2D, GL_NEAREST), (3553, 9728));
}

#[test]
fn import_attribs_modifier_halves_recombine() {
    let meta = TextureStorageMetadata { fourcc: -5, offset: -1, modifiers: 0xfedc_ba98_7654_3210, stride: 4 };
    let a = dma_buf_import_attribs(&meta, -1);
    assert_eq!(((a[15] as u64) << 32) | a[13] as u64, meta.modifiers);
    assert_eq!(a[1] as i32, meta.fourcc);
    assert_eq!(a[7] as i32, -1);
    assert_eq!(a[9] as i32, meta.offset);
}

#[test]
fn received_plane_is_sent_plane() {
    let meta = TextureStorageMetadata { fourcc: 0x3432_5258, offset: 0, modifiers: 0x00ff_0000_0000_00ff, stride: 2048 };
    let received = decode_metadata(&encode_metadata(&meta)).unwrap();
    let a = dma_buf_import_attribs(&received, 42);
    assert_eq!(a[1] as i32, meta.fourcc);
    assert_eq!(a[11] as i32, meta.stride);
    assert_eq!(((a[15] as u64) << 32) | a[13] as u64, meta.modifiers);
}

fn run(events: &[ImportEvent]) -> (ImportStage, Vec<ImportAction>) {
    let (mut stage, create) = ImportStage::start();
    assert_eq!(create, ImportAction::CreateImage { target: EGL_LINUX_DMA_BUF_EXT });
    let mut actions = Vec::new();
    for e in events {
        assert!(stage.accepts(e));
        let (next, action) = stage.next(*e);
        stage = next;
        actions.push(action);
    }
    (stage, actions)
}

#[test]
fn import_success_delivers_generated_texture() {
    let (stage, actions) = run(&[
        ImportEvent::ImageCreated { is_null: false },
        ImportEvent::TextureGenerated { texture: 3, gl_error: 0 },
        ImportEvent::TextureBound { gl_error: 0 },
        ImportEvent::ImageAttached { egl_error_pending: false, gl_error: 0 },
        ImportEvent::FiltersSet { gl_error: 0 },
        ImportEvent::TextureUnbound { gl_error: 0 },
    ]);
    assert_eq!(stage, ImportStage::Finished);
    assert_eq!(
        actions,
        vec![
            ImportAction::GenerateTexture,
            ImportAction::BindTexture { target: GL_TEXTURE_2D, texture: 3 },
            ImportAction::AttachImage { target: GL_TEXTURE_2D },
            ImportAction::SetFilters { target: GL_TEXTURE_2D, min_filter: GL_NEAREST, mag_filter: GL_NEAREST },
            ImportAction::UnbindTexture { target: GL_TEXTURE_2D },
            ImportAction::Deliver { texture: 3 },
        ]
    );
}

#[test]
fn import_null_image_fails() {
    let (stage, actions) = run(&[ImportEvent::ImageCreated { is_null: true }]);
    assert_eq!(stage, ImportStage::Finished);
    assert_eq!(actions, vec![ImportAction::Fail { error: ImportError::CreateImageFailed }]);
    assert!(!stage.accepts(&ImportEvent::TextureGenerated { texture: 1, gl_error: 0 }));
}

#[test]
fn import_each_gl_error_fails_with_its_step() {
    let ok = [
        ImportEvent::ImageCreated { is_null: false },
        ImportEvent::TextureGenerated { texture: 9, gl_error: 0 },
        ImportEvent::TextureBound { gl_error: 0 },
        ImportEvent::ImageAttached { egl_error_pending: false, gl_error: 0 },
        ImportEvent::FiltersSet { gl_error: 0 },
    ];
    let (_, a) = run(&[ok[0], ImportEvent::TextureGenerated { texture: 9, gl_error: 0x500 }]);
    assert_eq!(a[1], ImportAction::Fail { error: ImportError::GenerateTextureFailed { gl_error: 0x500 } });
    let (_, a) = run(&[ok[0], ok[1], ImportEvent::TextureBound { gl_error: 0x502 }]);
    assert_eq!(a[2], ImportAction::Fail { error: ImportError::BindTextureFailed { gl_error: 0x502 } });
    let (_, a) = run(&[ok[0], ok[1], ok[2], ImportEvent::ImageAttached { egl_error_pending: true, gl_error: 0x502 }]);
    assert_eq!(a[3], ImportAction::Fail { error: ImportError::AttachImageEglError });
    let (_, a) = run(&[ok[0], ok[1], ok[2], ImportEvent::ImageAttached { egl_error_pending: false, gl_error: 0x501 }]);
    assert_eq!(a[3], ImportAction::Fail { error: ImportError::AttachImageFailed { gl_error: 0x501 } });
    let (_, a) = run(&[ok[0], ok[1], ok[2], ok[3], ImportEvent::FiltersSet { gl_error: 0x500 }]);
    assert_eq!(a[4], ImportAction::Fail { error: ImportError::SetFiltersFailed { gl_error: 0x500 } });
    let (s, a) = run(&[ok[0], ok[1], ok[2], ok[3], ok[4], ImportEvent::TextureUnbound { gl_error: 0x505 }]);
    assert_eq!(a[5], ImportAction::Fail { error: ImportError::UnbindTextureFailed { gl_error: 0x505 } });
    assert_eq!(s, ImportStage::Finished);
}

#[test]
fn import_refuses_texture_name_zero() {
    let (stage, a) = run(&[
        ImportEvent::ImageCreated { is_null: false },
        ImportEvent::TextureGenerated { texture: 0, gl_error: 0 },
    ]);
    assert_eq!(a[1], ImportAction::Fail { error: ImportError::NoTextureGenerated });
    assert_eq!(stage, ImportStage::Finished);
}

#[test]
fn import_stage_accepts_only_its_outcome() {
    let (s, _) = ImportStage::start();
    assert!(s.accepts(&ImportEvent::ImageCreated { is_null: false }));
    assert!(!s.accepts(&ImportEvent::TextureBound { gl_error: 0 }));
    let s = ImportStage::BindingTexture { texture: 1 };
    assert!(s.accepts(&ImportEvent::TextureBound { gl_error: 0 }));
    assert!(!s.accepts(&ImportEvent::FiltersSet { gl_error: 0 }));
}
