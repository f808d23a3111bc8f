use dma_buf::export::{ExportAction, ExportError, ExportEvent, ExportStage};
use dma_buf::egl::EGL_GL_TEXTURE_2D_KHR;
use dma_buf::wire::TextureStorageMetadata;

fn run(events: &[ExportEvent]) -> (ExportStage, Vec<ExportAction>) {
    let (mut stage, create) = ExportStage::start(2);
    assert_eq!(create, ExportAction::CreateImage { target: EGL_GL_TEXTURE_2D_KHR, buffer: 2 });
    let mut actions = Vec::new();
    for e in events {
        assert!(stage.accepts(e));
        let (next, action) = stage.next(*e);
        stage = next;
        actions.push(action);
    }
    (stage, actions)
}

#[test]
fn export_success_delivers_reported_plane() {
    let (stage, actions) = run(&[
        ExportEvent::ImageCreated { is_null: false },
        ExportEvent::ImageQueried { status: 1, fourcc: 0x3432_4241, num_planes: 1, modifiers: 0x0100_0000_0000_0001 },
        ExportEvent::ImageExported { status: 1, fd: 11, stride: 1024, offset: 0 },
        ExportEvent::ImageDestroyed { status: 1 },
    ]);
    assert_eq!(stage, ExportStage::Finished);
    assert_eq!(
        actions,
        vec![
            ExportAction::QueryImage,
            ExportAction::ExportImage,
            ExportAction::DestroyImage,
            ExportAction::Deliver {
                metadata: TextureStorageMetadata {
                    fourcc: 0x3432_4241,
                    offset: 0,
                    modifiers: 0x0100_0000_0000_0001,
                    stride: 1024,
                },
                fd: 11,
            },
        ]
    );
}

#[test]
fn export_null_image_fails() {
    let (stage, actions) = run(&[ExportEvent::ImageCreated { is_null: true }]);
    assert_eq!(stage, ExportStage::Finished);
    assert_eq!(actions, vec![ExportAction::Fail { error: ExportError::CreateImageFailed }]);
}

#[test]
fn export_query_failure_comes_before_plane_check() {
    let (_, a) = run(&[
        ExportEvent::ImageCreated { is_null: false },
        ExportEvent::ImageQueried { status: 0, fourcc: 1, num_planes: 2, modifiers: 0 },
    ]);
    assert_eq!(a[1], ExportAction::Fail { error: ExportError::QueryFailed });
}

#[test]
fn export_requires_single_plane() {
    let (stage, a) = run(&[
        ExportEvent::ImageCreated { is_null: false },
        ExportEvent::ImageQueried { status: 1, fourcc: 1, num_planes: 2, modifiers: 0 },
    ]);
    assert_eq!(a[1], ExportAction::Fail { error: ExportError::UnexpectedPlaneCount { num_planes: 2 } });
    assert!(!stage.accepts(&ExportEvent::ImageExported { status: 1, fd: 3, stride: 4, offset: 0 }));
}

#[test]
fn export_and_destroy_failures() {
    let head = [
        ExportEvent::ImageCreated { is_null: false },
        ExportEvent::ImageQueried { status: 1, fourcc: 1, num_planes: 1, modifiers: 0 },
    ];
    let (_, a) = run(&[head[0], head[1], ExportEvent::ImageExported { status: 0, fd: 3, stride: 4, offset: 0 }]);
    assert_eq!(a[2], ExportAction::Fail { error: ExportError::ExportFailed });
    let (s, a) = run(&[
        head[0],
        head[1],
        ExportEvent::ImageExported { status: 1, fd: 3, stride: 4, offset: 0 },
        ExportEvent::ImageDestroyed { status: 0 },
    ]);
    assert_eq!(a[3], ExportAction::Fail { error: ExportError::DestroyImageFailed });
    assert_eq!(s, ExportStage::Finished);
}
