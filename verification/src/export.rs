//! The sending side: the checks that drive the EGL calls exporting an OpenGL
//! texture into a DMA-BUF, and the metadata assembled from their results.
//!
//! The export creates an EGL image from the texture (`eglCreateImageKHR`),
//! queries its DMA-BUF format (`eglExportDMABUFImageQueryMESA`), exports it
//! (`eglExportDMABUFImageMESA`) and destroys the image again
//! (`eglDestroyImageKHR`). The calls are made by the caller;
//! [`ExportStage::next`] takes the outcome of the call in progress and says
//! which call to make next, or that the export failed, or that it is complete
//! with the given metadata and file descriptor.
use vstd::prelude::*;
use crate::egl::EGL_GL_TEXTURE_2D_KHR;
use crate::wire::TextureStorageMetadata;

verus! {

/// Where an export stands: which call's outcome it waits for.
#[derive(PartialEq, Eq, Structural, Debug, Clone, Copy)]
pub enum ExportStage {
    /// `eglCreateImageKHR` on the texture was issued.
    CreatingImage,
    /// `eglExportDMABUFImageQueryMESA` was issued.
    QueryingImage,
    /// `eglExportDMABUFImageMESA` was issued; the query reported these.
    ExportingImage { fourcc: i32, modifiers: u64 },
    /// `eglDestroyImageKHR` was issued; the export produced these.
    DestroyingImage { metadata: TextureStorageMetadata, fd: i32 },
    /// The export ended, with a result or a failure; nothing more is expected.
    Finished,
}

/// The outcome of the call in progress. A `status` is the `EGLBoolean` that
/// the call returned (0 is failure).
#[derive(PartialEq, Eq, Structural, Debug, Clone, Copy)]
pub enum ExportEvent {
    ImageCreated { is_null: bool },
    ImageQueried { status: u32, fourcc: i32, num_planes: i32, modifiers: u64 },
    ImageExported { status: u32, fd: i32, stride: i32, offset: i32 },
    ImageDestroyed { status: u32 },
}

/// Why an export failed.
#[derive(PartialEq, Eq, Structural, Debug, Clone, Copy)]
pub enum ExportError {
    /// `eglCreateImageKHR` returned no image.
    CreateImageFailed,
    QueryFailed,
    /// The image does not have exactly one plane.
    UnexpectedPlaneCount { num_planes: i32 },
    ExportFailed,
    DestroyImageFailed,
}

/// What to do next, with the parameters of the call to make.
#[derive(PartialEq, Eq, Structural, Debug, Clone, Copy)]
pub enum ExportAction {
    /// `eglCreateImageKHR` in the current display and context, for this
    /// target, with the OpenGL texture name `buffer` as client buffer and no
    /// attributes.
    CreateImage { target: u32, buffer: u32 },
    QueryImage,
    ExportImage,
    DestroyImage,
    /// The export is complete: send these to the receiver.
    Deliver { metadata: TextureStorageMetadata, fd: i32 },
    Fail { error: ExportError },
}

impl ExportStage {
    /// Whether `event` is the outcome of the call that this stage waits for.
    pub open spec fn spec_accepts(self, event: ExportEvent) -> bool {
        match (self, event) {
            (ExportStage::CreatingImage, ExportEvent::ImageCreated { .. }) => true,
            (ExportStage::QueryingImage, ExportEvent::ImageQueried { .. }) => true,
            (ExportStage::ExportingImage { .. }, ExportEvent::ImageExported { .. }) => true,
            (ExportStage::DestroyingImage { .. }, ExportEvent::ImageDestroyed { .. }) => true,
            _ => false,
        }
    }

    /// Whether `event` is the outcome of the call that this stage waits for.
    pub fn accepts(&self, event: &ExportEvent) -> (b: bool)
        ensures
            b == self.spec_accepts(*event),
    {
        match (self, event) {
            (ExportStage::CreatingImage, ExportEvent::ImageCreated { .. }) => true,
            (ExportStage::QueryingImage, ExportEvent::ImageQueried { .. }) => true,
            (ExportStage::ExportingImage { .. }, ExportEvent::ImageExported { .. }) => true,
            (ExportStage::DestroyingImage { .. }, ExportEvent::ImageDestroyed { .. }) => true,
            _ => false,
        }
    }
}

/// One step of an export, on an outcome that the stage accepts: each call
/// must succeed (a non-null image, a non-zero status, exactly one plane) for
/// the next to be made; the first failure ends the export with its error.
/// The metadata delivered is made of the format and modifier that the query
/// reported and the pitch and offset that the export reported.
pub open spec fn export_step(stage: ExportStage, event: ExportEvent) -> (ExportStage, ExportAction) {
    let finish_fail = |error: ExportError| (ExportStage::Finished, ExportAction::Fail { error });
    match (stage, event) {
        (ExportStage::CreatingImage, ExportEvent::ImageCreated { is_null }) => if is_null {
            finish_fail(ExportError::CreateImageFailed)
        } else {
            (ExportStage::QueryingImage, ExportAction::QueryImage)
        },
        (ExportStage::QueryingImage, ExportEvent::ImageQueried { status, fourcc, num_planes, modifiers }) => if status == 0 {
            finish_fail(ExportError::QueryFailed)
        } else if num_planes != 1 {
            finish_fail(ExportError::UnexpectedPlaneCount { num_planes })
        } else {
            (ExportStage::ExportingImage { fourcc, modifiers }, ExportAction::ExportImage)
        },
        (ExportStage::ExportingImage { fourcc, modifiers }, ExportEvent::ImageExported { status, fd, stride, offset }) => if status == 0 {
            finish_fail(ExportError::ExportFailed)
        } else {
            (
                ExportStage::DestroyingImage {
                    metadata: TextureStorageMetadata { fourcc, offset, modifiers, stride },
                    fd,
                },
                ExportAction::DestroyImage,
            )
        },
        (ExportStage::DestroyingImage { metadata, fd }, ExportEvent::ImageDestroyed { status }) => if status == 0 {
            finish_fail(ExportError::DestroyImageFailed)
        } else {
            (ExportStage::Finished, ExportAction::Deliver { metadata, fd })
        },
        _ => (stage, ExportAction::Fail { error: ExportError::CreateImageFailed }),
    }
}

impl ExportStage {
    /// How the export of the OpenGL texture `texture` starts: an EGL image of
    /// it is created (target `EGL_GL_TEXTURE_2D_KHR`, the texture name as
    /// client buffer), and the export waits for it.
    pub fn start(texture: u32) -> (res: (ExportStage, ExportAction))
        ensures
            res == (ExportStage::CreatingImage, ExportAction::CreateImage {
                target: EGL_GL_TEXTURE_2D_KHR,
                buffer: texture,
            }),
    {
        (ExportStage::CreatingImage, ExportAction::CreateImage { target: EGL_GL_TEXTURE_2D_KHR, buffer: texture })
    }

    /// Takes the outcome of the call in progress; gives the next stage and what
    /// to do.
    pub fn next(self, event: ExportEvent) -> (res: (ExportStage, ExportAction))
        requires
            self.spec_accepts(event),
        ensures
            res == export_step(self, event),
    {
        match (self, event) {
            (ExportStage::CreatingImage, ExportEvent::ImageCreated { is_null }) => if is_null {
                (ExportStage::Finished, ExportAction::Fail { error: ExportError::CreateImageFailed })
            } else {
                (ExportStage::QueryingImage, ExportAction::QueryImage)
            },
            (ExportStage::QueryingImage, ExportEvent::ImageQueried { status, fourcc, num_planes, modifiers }) => if status == 0 {
                (ExportStage::Finished, ExportAction::Fail { error: ExportError::QueryFailed })
            } else if num_planes != 1 {
                (ExportStage::Finished, ExportAction::Fail { error: ExportError::UnexpectedPlaneCount { num_planes } })
            } else {
                (ExportStage::ExportingImage { fourcc, modifiers }, ExportAction::ExportImage)
            },
            (ExportStage::ExportingImage { fourcc, modifiers }, ExportEvent::ImageExported { status, fd, stride, offset }) => if status == 0 {
                (ExportStage::Finished, ExportAction::Fail { error: ExportError::ExportFailed })
            } else {
                (
                    ExportStage::DestroyingImage {
                        metadata: TextureStorageMetadata { fourcc, offset, modifiers, stride },
                        fd,
                    },
                    ExportAction::DestroyImage,
                )
            },
            (ExportStage::DestroyingImage { metadata, fd }, ExportEvent::ImageDestroyed { status }) => if status == 0 {
                (ExportStage::Finished, ExportAction::Fail { error: ExportError::DestroyImageFailed })
            } else {
                (ExportStage::Finished, ExportAction::Deliver { metadata, fd })
            },
            _ => {
                proof {
                    assert(false);
                }
                (self, ExportAction::Fail { error: ExportError::CreateImageFailed })
            },
        }
    }
}

/// Runs a sequence of outcomes from `stage`: the final stage and the actions
/// taken, or `None` if some outcome is not the one its stage waits for.
pub open spec fn export_run(stage: ExportStage, events: Seq<ExportEvent>) -> Option<
    (ExportStage, Seq<ExportAction>),
>
    decreases events.len(),
{
    if events.len() == 0 {
        Some((stage, Seq::empty()))
    } else if !stage.spec_accepts(events[0]) {
        None
    } else {
        let (next, action) = export_step(stage, events[0]);
        match export_run(next, events.drop_first()) {
            Some((last, actions)) => Some((last, seq![action] + actions)),
            None => None,
        }
    }
}

/// The outcomes of an export in which every call succeeds and reports the
/// plane of `metadata` behind `fd`.
pub open spec fn successful_export_events(
    metadata: TextureStorageMetadata,
    fd: i32,
    statuses: (u32, u32, u32),
) -> Seq<ExportEvent> {
    seq![
        ExportEvent::ImageCreated { is_null: false },
        ExportEvent::ImageQueried {
            status: statuses.0,
            fourcc: metadata.fourcc,
            num_planes: 1,
            modifiers: metadata.modifiers,
        },
        ExportEvent::ImageExported {
            status: statuses.1,
            fd,
            stride: metadata.stride,
            offset: metadata.offset,
        },
        ExportEvent::ImageDestroyed { status: statuses.2 },
    ]
}

/// How many calls of an export precede the one that `stage` waits for.
pub open spec fn export_stage_index(stage: ExportStage) -> int {
    match stage {
        ExportStage::CreatingImage => 0,
        ExportStage::QueryingImage => 1,
        ExportStage::ExportingImage { .. } => 2,
        ExportStage::DestroyingImage { .. } => 3,
        ExportStage::Finished => 4,
    }
}

/// When every call succeeds, the export queries the image, exports it and
/// destroys it, in that order, and delivers exactly the metadata and
/// descriptor that the calls reported.
pub proof fn lemma_export_success(metadata: TextureStorageMetadata, fd: i32, statuses: (u32, u32, u32))
    requires
        statuses.0 != 0,
        statuses.1 != 0,
        statuses.2 != 0,
    ensures
        export_run(ExportStage::CreatingImage, successful_export_events(metadata, fd, statuses))
            == Some((
            ExportStage::Finished,
            seq![
                ExportAction::QueryImage,
                ExportAction::ExportImage,
                ExportAction::DestroyImage,
                ExportAction::Deliver { metadata, fd },
            ],
        )),
{
    let evs = successful_export_events(metadata, fd, statuses);
    reveal_with_fuel(export_run, 5);
    assert(evs.drop_first() =~= evs.subrange(1, 4));
    assert(evs.subrange(1, 4).drop_first() =~= evs.subrange(2, 4));
    assert(evs.subrange(2, 4).drop_first() =~= evs.subrange(3, 4));
    assert(evs.subrange(3, 4).drop_first() =~= Seq::<ExportEvent>::empty());
    let acts = seq![
        ExportAction::QueryImage,
        ExportAction::ExportImage,
        ExportAction::DestroyImage,
        ExportAction::Deliver { metadata, fd },
    ];
    let m = TextureStorageMetadata {
        fourcc: metadata.fourcc,
        offset: metadata.offset,
        modifiers: metadata.modifiers,
        stride: metadata.stride,
    };
    assert(m == metadata);
    assert(seq![acts[3]] + Seq::<ExportAction>::empty() =~= acts.subrange(3, 4));
    assert(seq![acts[2]] + acts.subrange(3, 4) =~= acts.subrange(2, 4));
    assert(seq![acts[1]] + acts.subrange(2, 4) =~= acts.subrange(1, 4));
    assert(seq![acts[0]] + acts.subrange(1, 4) =~= acts);
}

/// Whether `event` is a successful outcome of the call with index `i` of an
/// export that reports the plane of `metadata` behind `fd`.
pub open spec fn export_event_succeeds(i: int, event: ExportEvent, metadata: TextureStorageMetadata, fd: i32) -> bool {
    match event {
        ExportEvent::ImageCreated { is_null } => i == 0 && !is_null,
        ExportEvent::ImageQueried { status, fourcc, num_planes, modifiers } => i == 1 && status != 0
            && num_planes == 1 && fourcc == metadata.fourcc && modifiers == metadata.modifiers,
        ExportEvent::ImageExported { status, fd: exported_fd, stride, offset } => i == 2 && status
            != 0 && exported_fd == fd && stride == metadata.stride && offset == metadata.offset,
        ExportEvent::ImageDestroyed { status } => i == 3 && status != 0,
    }
}

/// Whether `events` are the outcomes of an export whose every call succeeded
/// and reported the plane of `metadata` behind `fd`.
pub open spec fn is_successful_export(events: Seq<ExportEvent>, metadata: TextureStorageMetadata, fd: i32) -> bool {
    &&& events.len() == 4
    &&& forall|i: int| 0 <= i < 4 ==> export_event_succeeds(i, #[trigger] events[i], metadata, fd)
}

/// What the stage already holds agrees with `metadata` and `fd`.
pub open spec fn export_stage_agrees(stage: ExportStage, metadata: TextureStorageMetadata, fd: i32) -> bool {
    match stage {
        ExportStage::ExportingImage { fourcc, modifiers } => fourcc == metadata.fourcc && modifiers
            == metadata.modifiers,
        ExportStage::DestroyingImage { metadata: held, fd: held_fd } => held == metadata && held_fd
            == fd,
        _ => true,
    }
}

proof fn lemma_export_run_delivers(
    stage: ExportStage,
    events: Seq<ExportEvent>,
    metadata: TextureStorageMetadata,
    fd: i32,
)
    requires
        export_run(stage, events) matches Some((last, actions)) && actions.contains(
            ExportAction::Deliver { metadata, fd },
        ),
    ensures
        export_stage_index(stage) < 4,
        export_stage_agrees(stage, metadata, fd),
        events.len() == 4 - export_stage_index(stage),
        forall|j: int|
            0 <= j < events.len() ==> export_event_succeeds(
                export_stage_index(stage) + j,
                #[trigger] events[j],
                metadata,
                fd,
            ),
    decreases events.len(),
{
    let (last, actions) = export_run(stage, events).unwrap();
    if events.len() == 0 {
        assert(actions.len() == 0);
    } else {
        let (next, action) = export_step(stage, events[0]);
        let rest = events.drop_first();
        let (last2, actions2) = export_run(next, rest).unwrap();
        assert(actions == seq![action] + actions2);
        let k = choose|k: int| 0 <= k < actions.len() && actions[k] == ExportAction::Deliver { metadata, fd };
        if k == 0 {
            assert(action == ExportAction::Deliver { metadata, fd });
            assert(next == ExportStage::Finished);
            if rest.len() > 0 {
                assert(!next.spec_accepts(rest[0]));
            }
            assert(rest.len() == 0);
        } else {
            assert(actions2[k - 1] == ExportAction::Deliver { metadata, fd });
            assert(actions2.contains(ExportAction::Deliver { metadata, fd }));
            lemma_export_run_delivers(next, rest, metadata, fd);
            assert forall|j: int| 0 <= j < events.len() implies export_event_succeeds(
                export_stage_index(stage) + j,
                #[trigger] events[j],
                metadata,
                fd,
            ) by {
                if j > 0 {
                    assert(events[j] == rest[j - 1]);
                }
            }
        }
    }
}

/// The export delivers only when every call succeeded, in the order create
/// image, query, export, destroy image, and what it delivers is the format and modifier that the query
/// reported with the descriptor, pitch and offset that the export reported.
pub proof fn lemma_export_delivers_only_on_success(
    events: Seq<ExportEvent>,
    metadata: TextureStorageMetadata,
    fd: i32,
)
    requires
        export_run(ExportStage::CreatingImage, events) matches Some((last, actions))
            && actions.contains(ExportAction::Deliver { metadata, fd }),
    ensures
        is_successful_export(events, metadata, fd),
{
    lemma_export_run_delivers(ExportStage::CreatingImage, events, metadata, fd);
}

/// A failed call ends the export: it is finished and expects nothing more.
pub proof fn lemma_export_failure_is_final(stage: ExportStage, event: ExportEvent, other: ExportEvent)
    requires
        stage.spec_accepts(event),
        export_step(stage, event).1 is Fail,
    ensures
        export_step(stage, event).0 == ExportStage::Finished,
        !export_step(stage, event).0.spec_accepts(other),
{
}

} // verus!
