//! A rendering core that negotiates a chain of presentable images with a
//! display surface, synchronizes CPU command submission with GPU execution,
//! records a fixed per-frame command sequence, and recovers from surface
//! resize or staleness.
//!
//! Exactly one frame is in flight: a shared fence guards reuse of the single
//! command buffer, and each frame runs the strict acquire, record, submit,
//! present protocol on one thread. The backend calls themselves are the
//! caller's; the renderer is a step machine that tells the caller what to do
//! next and is handed what the backend answered.

use vstd::prelude::*;
use vstd::string::StringExecFns;

pub mod command;
pub mod device;
pub mod instance;
pub mod pipeline;
pub mod shader;
pub mod surface;
pub mod swapchain;

use crate::command::{record_frame_commands, spec_frame_commands, Mesh, RenderCommand};
use crate::device::Device;
use crate::instance::Instance;
use crate::pipeline::{GraphicsPipeline, COLOR_SPACE_SRGB_NONLINEAR, FORMAT_B8G8R8A8_SRGB};
use crate::shader::ShaderSource;
use crate::surface::{Extent2D, PresentMode, SurfaceCapabilities, SurfaceFormat};
use crate::swapchain::{
    spec_create_params, AcquireError, AcquireOutcome, AcquireStatus, CreateSwapchainError,
    RecreateStatus, Swapchain, SwapchainDesc, SwapchainImage, SwapchainResources, SwapchainState,
};

verus! {

/// The bounded wait of an acquisition request, in nanoseconds. Its expiry
/// is a non-fatal try-again condition, never an error to the caller.
pub const ACQUIRE_TIMEOUT_NS: u64 = 0xffff_ffff_ffff_ffff;

/// What a frame can fail with.
#[derive(Clone, Copy, Debug, PartialEq, Eq, Structural)]
pub enum DrawError {
    /// Height or width of the window is zero; the caller defers drawing.
    ZeroSizedExtent,
    /// No image could be acquired from the chain: the surface went stale,
    /// so the caller must recreate the chain and skip this frame.
    NoSwapchainImage,
    /// The acquired image was presented against a stale surface: the caller
    /// must recreate the chain; the frame does not count.
    BadSwapchainImage,
    /// The device is lost or the backend failed; fatal.
    DeviceLost,
}

/// Where a frame stands in the strict per-frame protocol.
#[derive(Clone, Copy, Debug, PartialEq, Eq, Structural)]
pub enum FramePhase {
    /// No frame is underway.
    Idle,
    /// The caller is waiting on the shared render-complete fence.
    WaitingFence,
    /// The caller has requested an image from the backend.
    Acquiring,
    /// The caller is recording, submitting, and presenting the frame.
    Presenting,
}

/// What the backend answered to a presentation request.
#[derive(Clone, Copy, Debug, PartialEq, Eq, Structural)]
pub enum PresentOutcome {
    /// The image was handed to the compositor.
    Success,
    /// The surface is out of date or suboptimal; soft failure.
    Stale,
    /// Any other presentation failure; fatal.
    Failed,
}

/// What happened outside since the last step.
#[derive(Clone, Copy, Debug, PartialEq, Eq, Structural)]
pub enum FrameEvent {
    /// A new frame starts against a window of this size.
    Begin { window_extent: Extent2D },
    /// The shared fence was waited on and is known signaled.
    FenceWaited,
    /// The acquisition request returned.
    AcquireReturned(AcquireOutcome),
    /// The presentation request returned.
    PresentReturned(PresentOutcome),
}

/// Everything one submission needs: wait on the acquire semaphore at the
/// color-output stage, signal the finished-render semaphore and the shared
/// fence on completion.
#[derive(Clone, Copy, Debug, PartialEq, Eq, Structural)]
pub struct SubmitInfo {
    /// The acquire semaphore of this frame's slot.
    pub wait_semaphore: u64,
    /// The finished-render semaphore of this frame's slot.
    pub signal_semaphore: u64,
    /// The shared render-complete fence, reset just before recording.
    pub fence: u64,
    /// The shared command buffer the frame was recorded into.
    pub command_buffer: u64,
    /// The pool to reset together with the fence.
    pub pool: u64,
    /// The graphics queue to submit to.
    pub queue: u64,
}

/// Everything one presentation needs: wait on the finished-render
/// semaphore, present the acquired image index.
#[derive(Clone, Copy, Debug, PartialEq, Eq, Structural)]
pub struct PresentInfo {
    /// The finished-render semaphore of this frame's slot.
    pub wait_semaphore: u64,
    /// The image index the backend handed out.
    pub image_index: u32,
    /// The raw chain the image belongs to.
    pub swapchain: u64,
    /// The graphics queue to present on.
    pub queue: u64,
}

/// What the caller must do next.
#[derive(Debug)]
pub enum FrameAction {
    /// Block until the shared render-complete fence signals.
    WaitFence { fence: u64 },
    /// Request an image with this semaphore and a bounded wait.
    Acquire { acquire_semaphore: u64, slot: usize, timeout_nanoseconds: u64 },
    /// Reset the fence and the pool (valid now that the fence is known
    /// signaled), play the commands into the buffer, submit, then present.
    RenderAndPresent { commands: Vec<RenderCommand>, submit: SubmitInfo, present: PresentInfo },
    /// The frame is complete and counted.
    Complete,
    /// The frame is skipped; try again next cycle.
    Retry,
    /// The frame is skipped; recreate the chain, then try again.
    SkipAndRecreate { error: DrawError },
    /// The frame is aborted; the error says whether to defer or to stop.
    Abort { error: DrawError },
}

/// Why the renderer could not be created.
#[derive(Clone, Copy, Debug, PartialEq, Eq, Structural)]
pub enum CreateRendererError {
    /// The preferred surface format is not among the supported ones; fatal
    /// at initialization.
    UnsupportedFormat,
    /// The chain could not be created.
    Swapchain(CreateSwapchainError),
}

/// The surface format this renderer presents in.
pub open spec fn spec_preferred_surface_format() -> SurfaceFormat {
    SurfaceFormat { format: FORMAT_B8G8R8A8_SRGB, color_space: COLOR_SPACE_SRGB_NONLINEAR }
}

/// The surface format this renderer presents in.
pub fn preferred_surface_format() -> (r: SurfaceFormat)
    ensures
        r == spec_preferred_surface_format(),
{
    SurfaceFormat { format: FORMAT_B8G8R8A8_SRGB, color_space: COLOR_SPACE_SRGB_NONLINEAR }
}

/// Returns whether `formats` lists the format `f`.
pub fn supports_surface_format(formats: &Vec<SurfaceFormat>, f: SurfaceFormat) -> (r: bool)
    ensures
        r == formats@.contains(f),
{
    let mut i: usize = 0;
    while i < formats.len()
        invariant
            i <= formats@.len(),
            forall|j: int| 0 <= j < i ==> formats@[j] != f,
        decreases formats@.len() - i,
    {
        if formats[i] == f {
            assert(formats@.contains(f));
            return true;
        }
        i += 1;
    }
    false
}

/// Collects the recognized configuration options of a renderer.
#[derive(Debug)]
pub struct PoogieRendererBuilder {
    /// The application name handed to the backend.
    pub app_name: String,
    /// Whether debug validation is on.
    pub debug_graphics: bool,
    /// Whether presentation is vsync-locked.
    pub vsync: bool,
}

impl PoogieRendererBuilder {
    /// The default options: debug validation off, vsync on.
    pub fn default() -> (r: Self)
        ensures
            r.app_name@ == "PoogieApp"@,
            !r.debug_graphics,
            r.vsync,
    {
        PoogieRendererBuilder {
            app_name: String::from_str("PoogieApp"),
            debug_graphics: false,
            vsync: true,
        }
    }

    /// Turns debug validation on or off.
    pub fn debug_graphics(self, debug_graphics: bool) -> (r: Self)
        ensures
            r.debug_graphics == debug_graphics,
            r.app_name == self.app_name,
            r.vsync == self.vsync,
    {
        PoogieRendererBuilder { debug_graphics, ..self }
    }

    /// Turns vsync on or off.
    pub fn vsync(self, vsync: bool) -> (r: Self)
        ensures
            r.vsync == vsync,
            r.app_name == self.app_name,
            r.debug_graphics == self.debug_graphics,
    {
        PoogieRendererBuilder { vsync, ..self }
    }

    /// Creates the renderer from these options.
    pub fn build(self, info: RendererCreateInfo) -> (r: Result<
        PoogieRenderer,
        CreateRendererError,
    >)
        requires
            spec_create_requires(self, info),
        ensures
            spec_create_ensures(self, info, r),
    {
        PoogieRenderer::create(self, info)
    }
}

/// What the caller gathered from the backend for renderer creation: the
/// window's size, a fresh capability report, the supported present modes
/// and surface formats, the device context, the backend resources of the
/// first chain generation, the built pipeline, and the drawables.
#[derive(Debug)]
pub struct RendererCreateInfo {
    pub window_extent: Extent2D,
    pub caps: SurfaceCapabilities,
    pub supported_present_modes: Vec<PresentMode>,
    pub surface_formats: Vec<SurfaceFormat>,
    pub instance: Instance,
    pub device: Device,
    pub swapchain_resources: SwapchainResources,
    pub pipeline: GraphicsPipeline,
    pub shaders: Vec<ShaderSource>,
    pub meshes: Vec<Mesh>,
}

/// What the renderer asks its first chain to be.
pub open spec fn spec_renderer_desc(
    builder: PoogieRendererBuilder,
    info: RendererCreateInfo,
) -> SwapchainDesc {
    SwapchainDesc {
        surface_format: spec_preferred_surface_format(),
        extent: info.window_extent,
        vsync: builder.vsync,
    }
}

/// What `PoogieRenderer::create` asks of its caller: backend resources that
/// match the negotiated image count, and a pipeline built for the preferred
/// format.
pub open spec fn spec_create_requires(
    builder: PoogieRendererBuilder,
    info: RendererCreateInfo,
) -> bool {
    &&& (spec_create_params(
        spec_renderer_desc(builder, info),
        info.caps,
        info.supported_present_modes@,
    ) matches Ok(p) ==> info.swapchain_resources.spec_matches_count(p.image_count))
    &&& info.pipeline.color_format == FORMAT_B8G8R8A8_SRGB
}

/// What a successfully created renderer looks like.
pub open spec fn spec_created_renderer(
    builder: PoogieRendererBuilder,
    info: RendererCreateInfo,
    r: PoogieRenderer,
) -> bool {
    &&& r.wf()
    &&& r.frame_number == 0
    &&& r.phase is Idle
    &&& r.pending_image is None
    &&& r.swapchain.state is Live
    &&& r.swapchain.desc == spec_renderer_desc(builder, info)
    &&& Ok::<_, CreateSwapchainError>(r.swapchain.params) == spec_create_params(
        spec_renderer_desc(builder, info),
        info.caps,
        info.supported_present_modes@,
    )
    &&& r.swapchain.next_semaphore == 0
    &&& r.swapchain.generation == 0
    &&& r.swapchain.raw == info.swapchain_resources.raw
    &&& r.swapchain.images@ == info.swapchain_resources.images@
    &&& r.swapchain.image_views@ == info.swapchain_resources.image_views@
    &&& r.swapchain.acquire_semaphores@ == info.swapchain_resources.acquire_semaphores@
    &&& r.swapchain.finished_render_semaphores@
        == info.swapchain_resources.finished_render_semaphores@
    &&& r.instance == info.instance
    &&& r.device == info.device
    &&& r.mesh_pipeline_temp == info.pipeline
    &&& r.shaders == info.shaders
    &&& r.meshes == info.meshes
}

/// Exactly when creation succeeds and with what: an unsupported preferred
/// format is rejected; a zero-area extent is rejected; anything else
/// produces the assembled renderer at frame zero.
pub open spec fn spec_create_ensures(
    builder: PoogieRendererBuilder,
    info: RendererCreateInfo,
    r: Result<PoogieRenderer, CreateRendererError>,
) -> bool {
    if !info.surface_formats@.contains(spec_preferred_surface_format()) {
        r matches Err(e) && e == CreateRendererError::UnsupportedFormat
    } else {
        match spec_create_params(
            spec_renderer_desc(builder, info),
            info.caps,
            info.supported_present_modes@,
        ) {
            Err(e) => r matches Err(err) && err == CreateRendererError::Swapchain(e),
            Ok(_) => r matches Ok(renderer) && spec_created_renderer(builder, info, renderer),
        }
    }
}

/// The renderer: the device context, the chain of presentable images, the
/// pipeline, the drawables, and the frame protocol's position.
#[derive(Debug)]
pub struct PoogieRenderer {
    /// What the backend instance was created with.
    pub instance: Instance,
    /// The device context all work is submitted through.
    pub device: Device,
    /// The chain of presentable images and its semaphore ring.
    pub swapchain: Swapchain,
    /// Counts fully successful frames.
    pub frame_number: u64,
    /// The shader descriptions the pipeline was built from.
    pub shaders: Vec<ShaderSource>,
    /// The one pipeline this renderer draws with.
    pub mesh_pipeline_temp: GraphicsPipeline,
    /// The drawables of each frame.
    pub meshes: Vec<Mesh>,
    /// Where the current frame stands.
    pub phase: FramePhase,
    /// The image acquired for the current frame, between acquisition and
    /// presentation.
    pub pending_image: Option<SwapchainImage>,
}

impl PoogieRenderer {
    /// Well-formedness: the chain is well-formed and live while a frame is
    /// underway, an acquired image is held exactly while presenting, and
    /// the pipeline matches the chain's color format (a format change would
    /// force a rebuild).
    pub open spec fn wf(self) -> bool {
        &&& self.swapchain.wf()
        &&& !(self.phase is Idle) ==> self.swapchain.state is Live
        &&& self.phase is Presenting ==> self.pending_image is Some
        &&& self.mesh_pipeline_temp.color_format == self.swapchain.desc.surface_format.format
    }

    /// The default options.
    pub fn builder() -> (r: PoogieRendererBuilder)
        ensures
            r.app_name@ == "PoogieApp"@,
            !r.debug_graphics,
            r.vsync,
    {
        PoogieRendererBuilder::default()
    }

    /// Assembles the renderer: rejects an unsupported preferred format,
    /// negotiates the first chain generation, installs the caller's backend
    /// resources into it, and starts at frame zero.
    pub fn create(builder: PoogieRendererBuilder, info: RendererCreateInfo) -> (r: Result<
        PoogieRenderer,
        CreateRendererError,
    >)
        requires
            spec_create_requires(builder, info),
        ensures
            spec_create_ensures(builder, info, r),
    {
        let preferred = preferred_surface_format();
        if !supports_surface_format(&info.surface_formats, preferred) {
            return Err(CreateRendererError::UnsupportedFormat);
        }
        let desc = SwapchainDesc {
            surface_format: preferred,
            extent: info.window_extent,
            vsync: builder.vsync,
        };
        let params = match crate::swapchain::create_params(
            &desc,
            &info.caps,
            &info.supported_present_modes,
        ) {
            Err(e) => {
                return Err(CreateRendererError::Swapchain(e));
            },
            Ok(p) => p,
        };
        let swapchain = Swapchain::new(desc, params, info.swapchain_resources);
        Ok(
            PoogieRenderer {
                instance: info.instance,
                device: info.device,
                swapchain,
                frame_number: 0,
                shaders: info.shaders,
                mesh_pipeline_temp: info.pipeline,
                meshes: info.meshes,
                phase: FramePhase::Idle,
                pending_image: None,
            },
        )
    }

    /// Which events the protocol takes next: the phases run strictly in
    /// order, an acquisition outcome carries an index the chain holds, and
    /// the frame counter has room to count one more frame.
    pub open spec fn spec_accepts(self, event: FrameEvent) -> bool {
        match event {
            FrameEvent::Begin { .. } => self.phase is Idle && self.swapchain.state is Live,
            FrameEvent::FenceWaited => self.phase is WaitingFence,
            FrameEvent::AcquireReturned(outcome) => self.phase is Acquiring && (
            outcome matches AcquireOutcome::Success { image_index } ==> image_index
                < self.swapchain.params.image_count),
            FrameEvent::PresentReturned(_) => self.phase is Presenting && self.frame_number
                < u64::MAX,
        }
    }

    /// The image an acquisition at the current ring cursor hands out.
    pub open spec fn spec_pending_image(self, image_index: u32) -> SwapchainImage {
        SwapchainImage {
            image: self.swapchain.images@[image_index as int],
            index: image_index,
            acquire_semaphore:
                self.swapchain.acquire_semaphores@[self.swapchain.next_semaphore as int],
            finished_render_semaphore:
                self.swapchain.finished_render_semaphores@[self.swapchain.next_semaphore as int],
            slot: self.swapchain.next_semaphore,
        }
    }

    /// The state after one protocol step: only a step may move the phase,
    /// the ring cursor (on acquisition, whatever its outcome), the pending
    /// image, and the frame counter (on successful presentation alone).
    pub open spec fn spec_draw_next(self, event: FrameEvent) -> PoogieRenderer
        recommends
            self.spec_accepts(event),
    {
        match event {
            FrameEvent::Begin { window_extent } => {
                if window_extent.spec_is_zero() {
                    self
                } else {
                    PoogieRenderer { phase: FramePhase::WaitingFence, ..self }
                }
            },
            FrameEvent::FenceWaited => PoogieRenderer { phase: FramePhase::Acquiring, ..self },
            FrameEvent::AcquireReturned(outcome) => {
                let advanced = Swapchain {
                    next_semaphore: self.swapchain.spec_next_cursor() as usize,
                    ..self.swapchain
                };
                match outcome {
                    AcquireOutcome::Success { image_index } => PoogieRenderer {
                        swapchain: advanced,
                        phase: FramePhase::Presenting,
                        pending_image: Some(self.spec_pending_image(image_index)),
                        ..self
                    },
                    _ => PoogieRenderer {
                        swapchain: advanced,
                        phase: FramePhase::Idle,
                        pending_image: None,
                        ..self
                    },
                }
            },
            FrameEvent::PresentReturned(outcome) => {
                match outcome {
                    PresentOutcome::Success => PoogieRenderer {
                        frame_number: (self.frame_number + 1) as u64,
                        phase: FramePhase::Idle,
                        pending_image: None,
                        ..self
                    },
                    _ => PoogieRenderer {
                        phase: FramePhase::Idle,
                        pending_image: None,
                        ..self
                    },
                }
            },
        }
    }

    /// The action each step directs: a zero-area window defers the frame; a
    /// fresh frame waits on the fence; a waited fence acquires at the ring
    /// cursor with the bounded timeout; a successful acquisition resets,
    /// records the fixed command sequence, submits, and presents; a stale
    /// acquisition or presentation skips the frame and asks for recreation;
    /// a timeout retries; anything else aborts.
    pub open spec fn spec_action_matches(self, event: FrameEvent, action: FrameAction) -> bool {
        match event {
            FrameEvent::Begin { window_extent } => {
                if window_extent.spec_is_zero() {
                    action == (FrameAction::Abort { error: DrawError::ZeroSizedExtent })
                } else {
                    action == (FrameAction::WaitFence { fence: self.device.render_fence })
                }
            },
            FrameEvent::FenceWaited => action == (FrameAction::Acquire {
                acquire_semaphore:
                    self.swapchain.acquire_semaphores@[self.swapchain.next_semaphore as int],
                slot: self.swapchain.next_semaphore,
                timeout_nanoseconds: ACQUIRE_TIMEOUT_NS,
            }),
            FrameEvent::AcquireReturned(outcome) => match outcome {
                AcquireOutcome::Success { image_index } => {
                    let img = self.spec_pending_image(image_index);
                    &&& action is RenderAndPresent
                    &&& (action matches FrameAction::RenderAndPresent { commands, submit, present }
                        ==> {
                        &&& commands@ == spec_frame_commands(
                            self.swapchain.params.extent,
                            img.image,
                            self.swapchain.image_views@[image_index as int],
                            self.mesh_pipeline_temp.pipeline,
                            self.meshes@,
                        )
                        &&& submit == (SubmitInfo {
                            wait_semaphore: img.acquire_semaphore,
                            signal_semaphore: img.finished_render_semaphore,
                            fence: self.device.render_fence,
                            command_buffer: self.device.main_command_buffer.raw,
                            pool: self.device.main_command_buffer.pool,
                            queue: self.device.graphics_queue.raw,
                        })
                        &&& present == (PresentInfo {
                            wait_semaphore: img.finished_render_semaphore,
                            image_index,
                            swapchain: self.swapchain.raw,
                            queue: self.device.graphics_queue.raw,
                        })
                    })
                },
                AcquireOutcome::Stale => action == (FrameAction::SkipAndRecreate {
                    error: DrawError::NoSwapchainImage,
                }),
                AcquireOutcome::TimedOut => action is Retry,
                AcquireOutcome::DeviceLost => action == (FrameAction::Abort {
                    error: DrawError::DeviceLost,
                }),
            },
            FrameEvent::PresentReturned(outcome) => match outcome {
                PresentOutcome::Success => action is Complete,
                PresentOutcome::Stale => action == (FrameAction::SkipAndRecreate {
                    error: DrawError::BadSwapchainImage,
                }),
                PresentOutcome::Failed => action == (FrameAction::Abort {
                    error: DrawError::DeviceLost,
                }),
            },
        }
    }

    /// Runs one step of the strict per-frame protocol and directs the
    /// caller's next backend call. The fence is reset and the queue
    /// submitted to only inside the render directive, which a stale
    /// acquisition never produces; the frame counter moves exactly on a
    /// successful presentation.
    pub fn draw(&mut self, event: FrameEvent) -> (action: FrameAction)
        requires
            old(self).wf(),
            old(self).spec_accepts(event),
        ensures
            final(self).wf(),
            *final(self) == old(self).spec_draw_next(event),
            old(self).spec_action_matches(event, action),
    {
        match event {
            FrameEvent::Begin { window_extent } => {
                if window_extent.is_zero() {
                    FrameAction::Abort { error: DrawError::ZeroSizedExtent }
                } else {
                    self.phase = FramePhase::WaitingFence;
                    FrameAction::WaitFence { fence: self.device.render_fence }
                }
            },
            FrameEvent::FenceWaited => {
                self.phase = FramePhase::Acquiring;
                let slot = self.swapchain.next_semaphore;
                let acquire_semaphore = self.swapchain.acquire_semaphores[slot];
                FrameAction::Acquire {
                    acquire_semaphore,
                    slot,
                    timeout_nanoseconds: ACQUIRE_TIMEOUT_NS,
                }
            },
            FrameEvent::AcquireReturned(outcome) => {
                let result = self.swapchain.acquire_next_image(outcome);
                match result {
                    Ok(AcquireStatus::Acquired(img)) => {
                        self.phase = FramePhase::Presenting;
                        self.pending_image = Some(img);
                        let view = self.swapchain.image_views[img.index as usize];
                        let commands = record_frame_commands(
                            self.swapchain.params.extent,
                            img.image,
                            view,
                            self.mesh_pipeline_temp.pipeline,
                            &self.meshes,
                        );
                        let submit = SubmitInfo {
                            wait_semaphore: img.acquire_semaphore,
                            signal_semaphore: img.finished_render_semaphore,
                            fence: self.device.render_fence,
                            command_buffer: self.device.main_command_buffer.raw,
                            pool: self.device.main_command_buffer.pool,
                            queue: self.device.graphics_queue.raw,
                        };
                        let present = PresentInfo {
                            wait_semaphore: img.finished_render_semaphore,
                            image_index: img.index,
                            swapchain: self.swapchain.raw,
                            queue: self.device.graphics_queue.raw,
                        };
                        FrameAction::RenderAndPresent { commands, submit, present }
                    },
                    Ok(AcquireStatus::Stale) => {
                        self.phase = FramePhase::Idle;
                        self.pending_image = None;
                        FrameAction::SkipAndRecreate { error: DrawError::NoSwapchainImage }
                    },
                    Ok(AcquireStatus::TimedOut) => {
                        self.phase = FramePhase::Idle;
                        self.pending_image = None;
                        FrameAction::Retry
                    },
                    Err(AcquireError::DeviceLost) => {
                        self.phase = FramePhase::Idle;
                        self.pending_image = None;
                        FrameAction::Abort { error: DrawError::DeviceLost }
                    },
                }
            },
            FrameEvent::PresentReturned(outcome) => {
                self.phase = FramePhase::Idle;
                self.pending_image = None;
                match outcome {
                    PresentOutcome::Success => {
                        self.frame_number = self.frame_number + 1;
                        FrameAction::Complete
                    },
                    PresentOutcome::Stale => FrameAction::SkipAndRecreate {
                        error: DrawError::BadSwapchainImage,
                    },
                    PresentOutcome::Failed => FrameAction::Abort { error: DrawError::DeviceLost },
                }
            },
        }
    }

    /// Tears the chain down for the window's new size, or rejects a
    /// zero-area window so the caller retries on the next resize. The
    /// caller must hold a device-idle barrier first and install fresh
    /// resources afterwards.
    pub fn recreate_swapchain(
        &mut self,
        window_extent: Extent2D,
        caps: &SurfaceCapabilities,
        supported_modes: &Vec<PresentMode>,
    ) -> (r: Result<RecreateStatus, CreateSwapchainError>)
        requires
            old(self).wf(),
            old(self).phase is Idle,
            old(self).swapchain.state is Live,
        ensures
            final(self).wf(),
            window_extent.spec_is_zero() ==> r == Err::<RecreateStatus, CreateSwapchainError>(
                CreateSwapchainError::ZeroSizedExtent,
            ) && *final(self) == *old(self),
            !window_extent.spec_is_zero() ==> ({
                let new_desc = SwapchainDesc { extent: window_extent, ..old(self).swapchain.desc };
                &&& (*final(self) == (PoogieRenderer {
                    swapchain: final(self).swapchain,
                    ..*old(self)
                }))
                &&& match spec_create_params(new_desc, *caps, supported_modes@) {
                    Err(_) => r == Ok::<RecreateStatus, CreateSwapchainError>(
                        RecreateStatus::Skipped,
                    ) && final(self).swapchain == old(self).swapchain,
                    Ok(params) => {
                        &&& r == Ok::<RecreateStatus, CreateSwapchainError>(
                            RecreateStatus::TornDown,
                        )
                        &&& final(self).swapchain.state is Rebuilding
                        &&& final(self).swapchain.desc == new_desc
                        &&& final(self).swapchain.params == params
                        &&& final(self).swapchain.generation == old(self).swapchain.generation
                    },
                }
            }),
    {
        if window_extent.is_zero() {
            return Err(CreateSwapchainError::ZeroSizedExtent);
        }
        let status = self.swapchain.recreate(window_extent, caps, supported_modes);
        Ok(status)
    }

    /// Installs the backend resources of the rebuilt chain generation.
    pub fn install_swapchain_resources(&mut self, res: SwapchainResources)
        requires
            old(self).wf(),
            old(self).phase is Idle,
            old(self).swapchain.state is Rebuilding,
            res.spec_matches_count(old(self).swapchain.params.image_count),
            old(self).swapchain.generation < u64::MAX,
        ensures
            final(self).wf(),
            *final(self) == (PoogieRenderer { swapchain: final(self).swapchain, ..*old(self) }),
            final(self).swapchain.state is Live,
            final(self).swapchain.desc == old(self).swapchain.desc,
            final(self).swapchain.params == old(self).swapchain.params,
            final(self).swapchain.raw == res.raw,
            final(self).swapchain.images@ == res.images@,
            final(self).swapchain.image_views@ == res.image_views@,
            final(self).swapchain.acquire_semaphores@ == res.acquire_semaphores@,
            final(self).swapchain.finished_render_semaphores@ == res.finished_render_semaphores@,
            final(self).swapchain.next_semaphore == 0,
            final(self).swapchain.generation == old(self).swapchain.generation + 1,
    {
        self.swapchain.install_resources(res);
    }

    /// Ends rendering: the caller blocks until the device is idle and
    /// releases the backend objects; the renderer forgets its drawables and
    /// its chain's views and raw object, and touches nothing else — the
    /// frame count, device, instance, pipeline, and shader descriptions
    /// stay as they were, so a second call changes nothing at all.
    pub fn terminate(&mut self)
        requires
            old(self).wf(),
        ensures
            final(self).wf(),
            final(self).meshes@ == Seq::<Mesh>::empty(),
            final(self).swapchain.state is Destroyed,
            final(self).swapchain.image_views@ == Seq::<u64>::empty(),
            final(self).swapchain == (Swapchain {
                image_views: final(self).swapchain.image_views,
                raw: 0u64,
                state: SwapchainState::Destroyed,
                ..old(self).swapchain
            }),
            *final(self) == (PoogieRenderer {
                meshes: final(self).meshes,
                swapchain: final(self).swapchain,
                phase: FramePhase::Idle,
                pending_image: None,
                ..*old(self)
            }),
            final(self).frame_number == old(self).frame_number,
            final(self).phase is Idle,
    {
        self.meshes = Vec::new();
        self.swapchain.destroy();
        self.phase = FramePhase::Idle;
        self.pending_image = None;
    }

    /// How many frames have fully completed.
    pub fn frame_number(&self) -> (r: u64)
        ensures
            r == self.frame_number,
    {
        self.frame_number
    }
}

/// A full successful cycle: begin, fence waited, acquisition succeeded,
/// presentation succeeded.
pub open spec fn spec_successful_cycle(
    s: PoogieRenderer,
    window_extent: Extent2D,
    image_index: u32,
) -> PoogieRenderer {
    s.spec_draw_next(FrameEvent::Begin { window_extent }).spec_draw_next(
        FrameEvent::FenceWaited,
    ).spec_draw_next(FrameEvent::AcquireReturned(AcquireOutcome::Success { image_index })).spec_draw_next(
        FrameEvent::PresentReturned(PresentOutcome::Success),
    )
}

/// A stale acquisition aborts the frame without a fence reset or a
/// submission: its action is the skip-and-recreate directive, never the
/// render directive (which alone carries the fence reset and the
/// submission), and the step changes nothing but the ring cursor and the
/// phase — the frame counter, the fence, and every resource stay as they
/// were.
pub proof fn lemma_stale_acquire_never_submits(s: PoogieRenderer, action: FrameAction)
    requires
        s.spec_accepts(FrameEvent::AcquireReturned(AcquireOutcome::Stale)),
        s.spec_action_matches(FrameEvent::AcquireReturned(AcquireOutcome::Stale), action),
    ensures
        action == (FrameAction::SkipAndRecreate { error: DrawError::NoSwapchainImage }),
        !(action is RenderAndPresent),
        ({
            let next = s.spec_draw_next(FrameEvent::AcquireReturned(AcquireOutcome::Stale));
            &&& next.frame_number == s.frame_number
            &&& next.device == s.device
            &&& next.phase is Idle
            &&& next.swapchain.images@ == s.swapchain.images@
            &&& next.swapchain.acquire_semaphores@ == s.swapchain.acquire_semaphores@
            &&& next.swapchain.finished_render_semaphores@
                == s.swapchain.finished_render_semaphores@
            &&& next.swapchain.generation == s.swapchain.generation
        }),
{
}

/// The frame counter increments exactly once per fully successful cycle,
/// and is unchanged on a cycle aborted by a stale acquisition.
pub proof fn lemma_frame_counter_per_cycle(
    s: PoogieRenderer,
    window_extent: Extent2D,
    image_index: u32,
)
    requires
        s.wf(),
        s.phase is Idle,
        s.swapchain.state is Live,
        !window_extent.spec_is_zero(),
        image_index < s.swapchain.params.image_count,
        s.frame_number < u64::MAX,
    ensures
        spec_successful_cycle(s, window_extent, image_index).frame_number == s.frame_number + 1,
        ({
            let aborted = s.spec_draw_next(FrameEvent::Begin { window_extent }).spec_draw_next(
                FrameEvent::FenceWaited,
            ).spec_draw_next(FrameEvent::AcquireReturned(AcquireOutcome::Stale));
            aborted.frame_number == s.frame_number && aborted.phase is Idle
        }),
{
}

/// One successful cycle takes the semaphore pair at the ring cursor and
/// advances the cursor by one slot, modulo the image count; everything else
/// of the chain, and the protocol's resting phase, are as before.
pub proof fn lemma_cycle_advances_ring_once(
    s: PoogieRenderer,
    window_extent: Extent2D,
    image_index: u32,
)
    requires
        s.wf(),
        s.phase is Idle,
        s.swapchain.state is Live,
        !window_extent.spec_is_zero(),
        image_index < s.swapchain.params.image_count,
        s.frame_number < u64::MAX,
    ensures
        ({
            let c = spec_successful_cycle(s, window_extent, image_index);
            &&& c.wf()
            &&& c.phase is Idle
            &&& c.swapchain.state is Live
            &&& c.swapchain.next_semaphore == (s.swapchain.next_semaphore + 1) % (
            s.swapchain.params.image_count as int)
            &&& c.swapchain.params == s.swapchain.params
            &&& c.swapchain.desc == s.swapchain.desc
            &&& c.swapchain.images@ == s.swapchain.images@
            &&& c.swapchain.acquire_semaphores@ == s.swapchain.acquire_semaphores@
            &&& c.swapchain.finished_render_semaphores@ == s.swapchain.finished_render_semaphores@
            &&& c.device == s.device
            &&& c.mesh_pipeline_temp == s.mesh_pipeline_temp
            &&& c.frame_number == s.frame_number + 1
        }),
        // The slot used is the one the cursor rested on when the cycle
        // began.
        (s.spec_draw_next(FrameEvent::Begin { window_extent }).spec_draw_next(
            FrameEvent::FenceWaited,
        ).spec_draw_next(
            FrameEvent::AcquireReturned(AcquireOutcome::Success { image_index }),
        ).pending_image matches Some(img) && img.slot == s.swapchain.next_semaphore),
{
}

/// The state after one successful cycle per entry of `indices`, fed those
/// image indices in order.
pub open spec fn spec_run_cycles(
    s: PoogieRenderer,
    window_extent: Extent2D,
    indices: Seq<u32>,
) -> PoogieRenderer
    decreases indices.len(),
{
    if indices.len() == 0 {
        s
    } else {
        spec_run_cycles(
            spec_successful_cycle(s, window_extent, indices[0]),
            window_extent,
            indices.drop_first(),
        )
    }
}

/// After `k` successful cycles the ring cursor stands `k` slots past where
/// it began, modulo the image count, and the chain's parameters and the
/// resting phase are as they were; the frame counter has grown by `k`.
pub proof fn lemma_run_cycles_cursor(
    s: PoogieRenderer,
    window_extent: Extent2D,
    indices: Seq<u32>,
)
    requires
        s.wf(),
        s.phase is Idle,
        s.swapchain.state is Live,
        !window_extent.spec_is_zero(),
        forall|k: int| 0 <= k < indices.len() ==> indices[k] < s.swapchain.params.image_count,
        s.frame_number + indices.len() <= u64::MAX,
    ensures
        ({
            let r = spec_run_cycles(s, window_extent, indices);
            &&& r.wf()
            &&& r.phase is Idle
            &&& r.swapchain.state is Live
            &&& r.swapchain.params == s.swapchain.params
            &&& r.frame_number == s.frame_number + indices.len()
            &&& r.swapchain.next_semaphore == (s.swapchain.next_semaphore + indices.len()) % (
            s.swapchain.params.image_count as int)
        }),
    decreases indices.len(),
{
    let n = s.swapchain.params.image_count as int;
    let c = s.swapchain.next_semaphore as int;
    if indices.len() == 0 {
        assert(c % n == c) by (nonlinear_arith)
            requires
                0 <= c < n,
        ;
    } else {
        lemma_cycle_advances_ring_once(s, window_extent, indices[0]);
        let s1 = spec_successful_cycle(s, window_extent, indices[0]);
        lemma_run_cycles_cursor(s1, window_extent, indices.drop_first());
        let r = spec_run_cycles(s, window_extent, indices);
        assert(r == spec_run_cycles(s1, window_extent, indices.drop_first()));
        assert(s1.swapchain.next_semaphore == (c + 1) % n);
        let m = indices.len() - 1;
        assert(r.swapchain.next_semaphore == ((c + 1) % n + m) % n);
        vstd::arithmetic::div_mod::lemma_add_mod_noop_right(m, c + 1, n);
        assert(((c + 1) % n + m) % n == (c + 1 + m) % n);
    }
}

/// Running the acquire, submit, present cycle N times (N the image count)
/// visits each of the N semaphore-pair slots exactly once before
/// repeating: the k-th cycle takes the slot `(c + k) mod N` from the
/// starting cursor `c`, so the N slots taken are pairwise distinct, and
/// every slot is taken by some cycle.
pub proof fn lemma_cycles_visit_each_slot_once(
    s: PoogieRenderer,
    window_extent: Extent2D,
    indices: Seq<u32>,
)
    requires
        s.wf(),
        s.phase is Idle,
        s.swapchain.state is Live,
        !window_extent.spec_is_zero(),
        forall|k: int| 0 <= k < indices.len() ==> indices[k] < s.swapchain.params.image_count,
        s.frame_number + indices.len() <= u64::MAX,
        indices.len() == s.swapchain.params.image_count,
    ensures
        forall|k: int|
            0 <= k < indices.len() ==> #[trigger] spec_run_cycles(
                s,
                window_extent,
                indices.take(k),
            ).swapchain.next_semaphore == (s.swapchain.next_semaphore + k) % (
            s.swapchain.params.image_count as int),
        forall|i: int, j: int|
            0 <= i < j < indices.len() ==> spec_run_cycles(
                s,
                window_extent,
                indices.take(i),
            ).swapchain.next_semaphore != spec_run_cycles(
                s,
                window_extent,
                indices.take(j),
            ).swapchain.next_semaphore,
        ({
            let n = s.swapchain.params.image_count as int;
            let c = s.swapchain.next_semaphore as int;
            forall|slot: int|
                0 <= slot < n ==> 0 <= #[trigger] ((slot - c + n) % n) < indices.len()
                    && spec_run_cycles(
                    s,
                    window_extent,
                    indices.take((slot - c + n) % n),
                ).swapchain.next_semaphore == slot
        }),
{
    let n = s.swapchain.params.image_count as int;
    let c = s.swapchain.next_semaphore as int;
    assert forall|k: int| 0 <= k < indices.len() implies #[trigger] spec_run_cycles(
        s,
        window_extent,
        indices.take(k),
    ).swapchain.next_semaphore == (c + k) % n by {
        assert(forall|m: int|
            0 <= m < indices.take(k).len() ==> indices.take(k)[m] == indices[m]);
        lemma_run_cycles_cursor(s, window_extent, indices.take(k));
    }
    crate::swapchain::lemma_ring_visits_all_slots(c, n);
    assert forall|i: int, j: int| 0 <= i < j < indices.len() implies spec_run_cycles(
        s,
        window_extent,
        indices.take(i),
    ).swapchain.next_semaphore != spec_run_cycles(
        s,
        window_extent,
        indices.take(j),
    ).swapchain.next_semaphore by {
        assert((c + i) % n != (c + j) % n);
    }
    assert forall|slot: int| 0 <= slot < n implies 0 <= #[trigger] ((slot - c + n) % n)
        < indices.len() && spec_run_cycles(
        s,
        window_extent,
        indices.take((slot - c + n) % n),
    ).swapchain.next_semaphore == slot by {
        let k = (slot - c + n) % n;
        assert(0 <= k < n && (c + k) % n == slot);
        assert(spec_run_cycles(s, window_extent, indices.take(k)).swapchain.next_semaphore
            == slot);
    }
}

} // verus!
