use crate::render::animation::AnimationFrame;
use crate::render::display::{batch_indices, batch_vertices, resolved_sprites, FrameBuilder};
use crate::render::sprite::Spritesheets;
use crate::render::vert::VertexSprite;
use vstd::prelude::*;

verus! {

/// The size of a surface in pixels.
#[derive(Clone, Copy, Debug, PartialEq, Eq, Structural)]
pub struct Extent {
    pub width: u32,
    pub height: u32,
}

/// Why a frame could not be presented.
#[derive(Clone, Copy, Debug, PartialEq, Eq, Structural)]
pub enum PresentationError {
    /// No image became available in time.
    Timeout,
    /// The surface was lost.
    Lost,
    /// The device ran out of memory.
    OutOfMemory,
}

/// How an attempt to rebuild the swapchain ended.
#[derive(Clone, Copy, Debug, PartialEq, Eq, Structural)]
pub enum RebuildOutcome {
    Rebuilt,
    /// The surface does not take images of the size asked for just now, as
    /// happens while a window is being resized or is minimised.
    UnsupportedDimensions,
}

/// How an attempt to acquire the next image of the swapchain ended.
#[derive(Clone, Copy, Debug, PartialEq, Eq, Structural)]
pub enum AcquireOutcome {
    /// An image is there to draw into. `suboptimal` says that the swapchain
    /// still works but no longer matches the surface exactly.
    Ready { suboptimal: bool },
    /// The swapchain no longer fits the surface.
    OutOfDate,
    Failed(PresentationError),
}

/// How submitting and presenting the commands of a frame ended.
#[derive(Clone, Copy, Debug, PartialEq, Eq, Structural)]
pub enum SubmitOutcome {
    Presented,
    /// The swapchain no longer fits the surface.
    OutOfDate,
    /// Anything else went wrong.
    Failed,
}

/// What has happened since the renderer last said what to do.
#[derive(Clone, Copy, Debug, PartialEq, Eq, Structural)]
pub enum FrameEvent {
    /// A new frame is to be drawn. Finished work of earlier frames has
    /// already been reclaimed.
    Begin,
    Rebuild(RebuildOutcome),
    Acquire(AcquireOutcome),
    Submit(SubmitOutcome),
}

/// How a frame ended.
#[derive(Clone, Copy, Debug, PartialEq, Eq, Structural)]
pub enum FrameResult {
    /// The frame was drawn and handed over for presentation.
    Presented,
    /// The swapchain was out of date when the image was asked for; nothing
    /// was drawn.
    Skipped,
    /// The frame was drawn, but the swapchain was out of date by the time it
    /// was presented.
    Stale,
    /// The frame was drawn, but submitting it failed. This is worth a line
    /// in the log and nothing more.
    SubmitFailed,
    /// No image could be acquired.
    Failed(PresentationError),
}

/// What the owner of the graphics device has to do next.
#[derive(Clone, Copy, Debug, PartialEq, Eq, Structural)]
pub enum FrameAction {
    /// Rebuild the swapchain, and what depends on its size, for a surface
    /// of this size; then report a [`FrameEvent::Rebuild`].
    RebuildSwapchain { width: u32, height: u32 },
    /// Acquire the next image; then report a [`FrameEvent::Acquire`].
    AcquireImage,
    /// Upload the camera transform, draw the sprites into the intermediate
    /// texture, draw that texture onto the acquired image, submit and
    /// present; then report a [`FrameEvent::Submit`].
    Render,
    /// The frame is over.
    Finish(FrameResult),
    /// The event does not belong to this point of a frame; nothing changed.
    Ignored,
}

/// Where in the course of a frame the renderer stands.
#[derive(Clone, Copy, Debug, PartialEq, Eq, Structural)]
pub enum FramePhase {
    /// Between frames.
    Idle,
    /// Waiting for the swapchain to be rebuilt for this size.
    Rebuilding { width: u32, height: u32 },
    /// Waiting for the next image.
    Acquiring,
    /// Waiting for the commands of the frame to be submitted.
    Submitting,
}

/// The part of the renderer that decides: what size the swapchain has, when
/// it is rebuilt, and what becomes of a frame.
///
/// It never touches the graphics device. Its owner tells it what happened,
/// as a [`FrameEvent`], and does what it answers, a [`FrameAction`].
#[derive(Clone, Copy, Debug, PartialEq, Eq, Structural)]
pub struct Renderer {
    /// The size of the surface as last reported.
    pub window_size: Extent,
    /// The size that the swapchain was last built for.
    pub swapchain_size: Extent,
    /// Whether the swapchain has to be rebuilt before the next frame.
    pub recreate_swapchain: bool,
    /// Whether submitted work of an earlier frame is still being tracked.
    pub work_in_flight: bool,
    pub phase: FramePhase,
}

/// Whether a surface of this size has no pixels.
pub open spec fn zero_area(size: Extent) -> bool {
    size.width == 0 || size.height == 0
}

impl FrameResult {
    /// What the caller of the renderer is told: only a failure to acquire
    /// an image is an error.
    pub open spec fn as_result(self) -> Result<(), PresentationError> {
        match self {
            FrameResult::Failed(error) => Err(error),
            _ => Ok(()),
        }
    }

    pub fn into_result(self) -> (result: Result<(), PresentationError>)
        ensures
            result == self.as_result(),
    {
        match self {
            FrameResult::Failed(error) => Err(error),
            _ => Ok(()),
        }
    }
}

impl Renderer {
    /// A swapchain is never being rebuilt for a surface without pixels.
    pub open spec fn wf(&self) -> bool {
        match self.phase {
            FramePhase::Rebuilding { width, height } => width != 0 && height != 0,
            _ => true,
        }
    }

    /// The renderer after a resize notification.
    pub open spec fn resized(self, new_size: Extent) -> Renderer {
        Renderer { window_size: new_size, recreate_swapchain: true, ..self }
    }

    /// The renderer after `event`, and what it answers.
    pub open spec fn stepped(self, event: FrameEvent) -> (Renderer, FrameAction) {
        match (self.phase, event) {
            (FramePhase::Idle, FrameEvent::Begin) => {
                if self.recreate_swapchain && !zero_area(self.window_size) {
                    (
                        Renderer {
                            phase: FramePhase::Rebuilding {
                                width: self.window_size.width,
                                height: self.window_size.height,
                            },
                            ..self
                        },
                        FrameAction::RebuildSwapchain {
                            width: self.window_size.width,
                            height: self.window_size.height,
                        },
                    )
                } else {
                    (Renderer { phase: FramePhase::Acquiring, ..self }, FrameAction::AcquireImage)
                }
            },
            (FramePhase::Rebuilding { width, height }, FrameEvent::Rebuild(outcome)) => {
                match outcome {
                    RebuildOutcome::Rebuilt => (
                        Renderer {
                            swapchain_size: Extent { width, height },
                            recreate_swapchain: self.window_size.width != width || self.window_size.height
                                != height,
                            phase: FramePhase::Acquiring,
                            ..self
                        },
                        FrameAction::AcquireImage,
                    ),
                    RebuildOutcome::UnsupportedDimensions => (
                        Renderer { phase: FramePhase::Acquiring, ..self },
                        FrameAction::AcquireImage,
                    ),
                }
            },
            (FramePhase::Acquiring, FrameEvent::Acquire(outcome)) => {
                match outcome {
                    AcquireOutcome::Ready { suboptimal } => (
                        Renderer {
                            recreate_swapchain: self.recreate_swapchain || suboptimal,
                            phase: FramePhase::Submitting,
                            ..self
                        },
                        FrameAction::Render,
                    ),
                    AcquireOutcome::OutOfDate => (
                        Renderer { recreate_swapchain: true, phase: FramePhase::Idle, ..self },
                        FrameAction::Finish(FrameResult::Skipped),
                    ),
                    AcquireOutcome::Failed(error) => (
                        Renderer { phase: FramePhase::Idle, ..self },
                        FrameAction::Finish(FrameResult::Failed(error)),
                    ),
                }
            },
            (FramePhase::Submitting, FrameEvent::Submit(outcome)) => {
                match outcome {
                    SubmitOutcome::Presented => (
                        Renderer { work_in_flight: true, phase: FramePhase::Idle, ..self },
                        FrameAction::Finish(FrameResult::Presented),
                    ),
                    SubmitOutcome::OutOfDate => (
                        Renderer {
                            recreate_swapchain: true,
                            work_in_flight: false,
                            phase: FramePhase::Idle,
                            ..self
                        },
                        FrameAction::Finish(FrameResult::Stale),
                    ),
                    SubmitOutcome::Failed => (
                        Renderer { work_in_flight: false, phase: FramePhase::Idle, ..self },
                        FrameAction::Finish(FrameResult::SubmitFailed),
                    ),
                }
            },
            _ => (self, FrameAction::Ignored),
        }
    }

    /// A renderer whose swapchain has just been built for a surface of
    /// `size`.
    pub fn new(size: Extent) -> (r: Self)
        ensures
            r == (Renderer {
                window_size: size,
                swapchain_size: size,
                recreate_swapchain: false,
                work_in_flight: false,
                phase: FramePhase::Idle,
            }),
            r.wf(),
    {
        Renderer {
            window_size: size,
            swapchain_size: size,
            recreate_swapchain: false,
            work_in_flight: false,
            phase: FramePhase::Idle,
        }
    }

    /// Takes note that the surface now has `new_size`. The swapchain is not
    /// rebuilt here but at the start of the next frame, so that a burst of
    /// notifications costs one rebuild.
    pub fn resize(&mut self, new_size: Extent)
        ensures
            *final(self) == old(self).resized(new_size),
            old(self).wf() ==> final(self).wf(),
    {
        self.window_size = new_size;
        self.recreate_swapchain = true;
    }

    /// Takes note of `event` and says what to do next.
    pub fn step(&mut self, event: FrameEvent) -> (action: FrameAction)
        ensures
            (*final(self), action) == old(self).stepped(event),
            old(self).wf() ==> final(self).wf(),
    {
        match (self.phase, event) {
            (FramePhase::Idle, FrameEvent::Begin) => {
                if self.recreate_swapchain && self.window_size.width != 0 && self.window_size.height != 0 {
                    let width = self.window_size.width;
                    let height = self.window_size.height;
                    self.phase = FramePhase::Rebuilding { width, height };
                    FrameAction::RebuildSwapchain { width, height }
                } else {
                    self.phase = FramePhase::Acquiring;
                    FrameAction::AcquireImage
                }
            },
            (FramePhase::Rebuilding { width, height }, FrameEvent::Rebuild(outcome)) => {
                match outcome {
                    RebuildOutcome::Rebuilt => {
                        self.swapchain_size = Extent { width, height };
                        self.recreate_swapchain = self.window_size.width != width
                            || self.window_size.height != height;
                    },
                    RebuildOutcome::UnsupportedDimensions => {},
                }
                self.phase = FramePhase::Acquiring;
                FrameAction::AcquireImage
            },
            (FramePhase::Acquiring, FrameEvent::Acquire(outcome)) => {
                match outcome {
                    AcquireOutcome::Ready { suboptimal } => {
                        if suboptimal {
                            self.recreate_swapchain = true;
                        }
                        self.phase = FramePhase::Submitting;
                        FrameAction::Render
                    },
                    AcquireOutcome::OutOfDate => {
                        self.recreate_swapchain = true;
                        self.phase = FramePhase::Idle;
                        FrameAction::Finish(FrameResult::Skipped)
                    },
                    AcquireOutcome::Failed(error) => {
                        self.phase = FramePhase::Idle;
                        FrameAction::Finish(FrameResult::Failed(error))
                    },
                }
            },
            (FramePhase::Submitting, FrameEvent::Submit(outcome)) => {
                self.phase = FramePhase::Idle;
                match outcome {
                    SubmitOutcome::Presented => {
                        self.work_in_flight = true;
                        FrameAction::Finish(FrameResult::Presented)
                    },
                    SubmitOutcome::OutOfDate => {
                        self.recreate_swapchain = true;
                        self.work_in_flight = false;
                        FrameAction::Finish(FrameResult::Stale)
                    },
                    SubmitOutcome::Failed => {
                        self.work_in_flight = false;
                        FrameAction::Finish(FrameResult::SubmitFailed)
                    },
                }
            },
            _ => FrameAction::Ignored,
        }
    }

    /// A swapchain is only ever rebuilt for the size that the surface last
    /// reported, and never for a surface without pixels. The size on record
    /// changes only when a rebuild has succeeded, and then to a size with
    /// pixels.
    pub proof fn lemma_rebuild_only_with_pixels(self, event: FrameEvent)
        requires
            self.wf(),
        ensures
            self.stepped(event).0.wf(),
            self.stepped(event).1 matches FrameAction::RebuildSwapchain { width, height } ==> width
                == self.window_size.width && height == self.window_size.height && width != 0 && height
                != 0,
            self.stepped(event).0.swapchain_size != self.swapchain_size ==> event
                == FrameEvent::Rebuild(RebuildOutcome::Rebuilt) && !zero_area(
                self.stepped(event).0.swapchain_size,
            ),
    {
    }

    /// After a resize to a surface without pixels, the next frame goes
    /// straight to acquiring an image: nothing is rebuilt, the swapchain
    /// stays as it was, and the rebuild stays due.
    pub proof fn lemma_zero_area_resize_keeps_swapchain(self, new_size: Extent)
        requires
            self.phase == FramePhase::Idle,
            zero_area(new_size),
        ensures
            self.resized(new_size).stepped(FrameEvent::Begin).1 == FrameAction::AcquireImage,
            self.resized(new_size).stepped(FrameEvent::Begin).0.swapchain_size
                == self.swapchain_size,
            self.resized(new_size).stepped(FrameEvent::Begin).0.recreate_swapchain,
    {
    }

    /// A rebuild that the surface refuses changes nothing but the phase.
    pub proof fn lemma_refused_rebuild_changes_nothing(self, width: u32, height: u32)
        requires
            self.phase == (FramePhase::Rebuilding { width, height }),
        ensures
            self.stepped(FrameEvent::Rebuild(RebuildOutcome::UnsupportedDimensions)) == ((
                Renderer { phase: FramePhase::Acquiring, ..self },
                FrameAction::AcquireImage,
            )),
    {
    }

    /// Whatever the device reports, a frame that begins between frames is
    /// over after four events at most, and the renderer is between frames
    /// again: it rebuilds if need be, acquires, and either stops there or
    /// renders and stops then.
    pub proof fn lemma_frame_ends_idle(
        self,
        rebuild: RebuildOutcome,
        acquire: AcquireOutcome,
        submit: SubmitOutcome,
    )
        requires
            self.phase == FramePhase::Idle,
        ensures
            ({
                let (begun, first) = self.stepped(FrameEvent::Begin);
                let (acquiring, second) = if first is RebuildSwapchain {
                    begun.stepped(FrameEvent::Rebuild(rebuild))
                } else {
                    (begun, first)
                };
                let (acquired, third) = acquiring.stepped(FrameEvent::Acquire(acquire));
                let (ended, last) = if third is Render {
                    acquired.stepped(FrameEvent::Submit(submit))
                } else {
                    (acquired, third)
                };
                &&& second == FrameAction::AcquireImage
                &&& third is Render <==> acquire is Ready
                &&& last is Finish
                &&& ended.phase == FramePhase::Idle
            }),
    {
    }

    /// A frame always ends without an error for its caller, unless no image
    /// could be acquired for a reason other than a swapchain out of date.
    pub proof fn lemma_only_acquire_fails(self, event: FrameEvent)
        ensures
            self.stepped(event).1 matches FrameAction::Finish(result) ==> (result.as_result()
                is Err <==> self.phase == FramePhase::Acquiring && event matches FrameEvent::Acquire(
                AcquireOutcome::Failed(_),
            )),
    {
    }
}

/// The vertex and index buffers of one indexed draw of the sprite pass,
/// and the atlas whose texture the draw samples.
pub struct SpriteBatch {
    pub atlas: usize,
    pub vertices: Vec<VertexSprite>,
    pub indices: Vec<u32>,
}

/// What a [`SpriteBatch`] holds, as sequences.
pub struct SpriteBatchView {
    pub atlas: usize,
    pub vertices: Seq<VertexSprite>,
    pub indices: Seq<u32>,
}

impl View for SpriteBatch {
    type V = SpriteBatchView;

    open spec fn view(&self) -> SpriteBatchView {
        SpriteBatchView { atlas: self.atlas, vertices: self.vertices@, indices: self.indices@ }
    }
}

/// The draws of the sprite pass for the first `atlases` atlases of a frame,
/// in atlas order: one for each atlas that exists and had sprites drawn into
/// it. An atlas without draws gives no draw at all.
pub open spec fn sprite_batches(
    draws: Seq<Seq<AnimationFrame>>,
    sheets: Spritesheets,
    atlases: nat,
) -> Seq<SpriteBatchView>
    decreases atlases,
{
    if atlases == 0 {
        Seq::empty()
    } else {
        let rest = sprite_batches(draws, sheets, (atlases - 1) as nat);
        let atlas = (atlases - 1) as int;
        match sheets.lookup(atlas) {
            Some(sheet) => if draws[atlas].len() > 0 {
                let resolved = resolved_sprites(draws[atlas], sheet);
                rest.push(
                    SpriteBatchView {
                        atlas: atlas as usize,
                        vertices: batch_vertices(resolved, sheet.size),
                        indices: batch_indices(resolved.len()),
                    },
                )
            } else {
                rest
            },
            None => rest,
        }
    }
}

/// The views of a list of batches.
pub open spec fn batch_views(batches: Seq<SpriteBatch>) -> Seq<SpriteBatchView> {
    Seq::new(batches.len(), |i: int| batches[i]@)
}

/// Turns the sprites collected for a frame into the draws of the sprite
/// pass, one per atlas that had sprites drawn into it.
pub fn build_sprite_batches(frame: &FrameBuilder, spritesheets: &Spritesheets) -> (batches: Vec<
    SpriteBatch,
>)
    requires
        forall|i: int|
            0 <= i < frame.draws().len() ==> 4 * (#[trigger] frame.draws()[i]).len() <= u32::MAX,
    ensures
        batch_views(batches@) == sprite_batches(frame.draws(), *spritesheets, frame.draws().len()),
{
    let collector = frame.sprite_renderer();
    let count = collector.atlas_count();
    let mut batches: Vec<SpriteBatch> = Vec::new();
    let mut atlas: usize = 0;
    while atlas < count
        invariant
            atlas <= count,
            count == frame.draws().len(),
            collector.draws() == frame.draws(),
            forall|i: int|
                0 <= i < frame.draws().len() ==> 4 * (#[trigger] frame.draws()[i]).len()
                    <= u32::MAX,
            batch_views(batches@) == sprite_batches(frame.draws(), *spritesheets, atlas as nat),
        decreases count - atlas,
    {
        let ghost earlier = batches@;
        match spritesheets.get(atlas) {
            Some(sheet) => {
                match collector.get_buffers(atlas, sheet) {
                    Some((vertices, indices)) => {
                        batches.push(SpriteBatch { atlas, vertices, indices });
                        assert(batch_views(batches@) =~= batch_views(earlier).push(
                            batches@[earlier.len() as int]@,
                        ));
                    },
                    None => {},
                }
            },
            None => {},
        }
        atlas += 1;
    }
    batches
}

} // verus!
