use poogie::command::{Mesh, RenderCommand};
use poogie::device::{CommandBuffer, Device, DeviceHandles, QueueFamily};
use poogie::instance::Instance;
use poogie::pipeline::GraphicsPipeline;
use poogie::surface::{Extent2D, PresentMode, SurfaceCapabilities, EXTENT_MATCH_WINDOW};
use poogie::swapchain::{
    AcquireOutcome, CreateSwapchainError, RecreateStatus, SwapchainResources, SwapchainState,
};
use poogie::{
    preferred_surface_format, CreateRendererError, DrawError, FrameAction, FrameEvent,
    PoogieRenderer, PresentOutcome, RendererCreateInfo, ACQUIRE_TIMEOUT_NS,
};

fn caps() -> SurfaceCapabilities {
    SurfaceCapabilities {
        min_image_count: 2,
        max_image_count: 0,
        current_extent: Extent2D { width: EXTENT_MATCH_WINDOW, height: EXTENT_MATCH_WINDOW },
        supports_identity_transform: true,
        current_transform: 1,
    }
}

fn resources(n: u64) -> SwapchainResources {
    SwapchainResources {
        raw: 9,
        images: (0..n).map(|i| 100 + i).collect(),
        image_views: (0..n).map(|i| 200 + i).collect(),
        acquire_semaphores: (0..n).map(|i| 300 + i).collect(),
        finished_render_semaphores: (0..n).map(|i| 400 + i).collect(),
    }
}

fn device() -> Device {
    let families = vec![QueueFamily { index: 0, queue_flags: 0x1 | 0x4, queue_count: 2 }];
    let supported = vec!["VK_KHR_swapchain".to_string()];
    let handles = DeviceHandles {
        raw: 11,
        graphics_queue: 12,
        transfer_queue: 0,
        main_command_buffer: CommandBuffer { raw: 13, pool: 14, submit_done_fence: 15 },
        render_fence: 16,
    };
    Device::new(&supported, &families, handles).unwrap()
}

fn create_info() -> RendererCreateInfo {
    RendererCreateInfo {
        window_extent: Extent2D { width: 1280, height: 720 },
        caps: caps(),
        supported_present_modes: vec![PresentMode::Fifo, PresentMode::FifoRelaxed],
        surface_formats: vec![preferred_surface_format()],
        instance: Instance::builder().build(),
        device: device(),
        swapchain_resources: resources(3),
        pipeline: GraphicsPipeline { pipeline: 21, layout: 22, color_format: 50 },
        shaders: Vec::new(),
        meshes: vec![Mesh { vertex_count: 3, vertex_buffer: 31 }],
    }
}

fn renderer() -> PoogieRenderer {
    PoogieRenderer::builder().vsync(true).build(create_info()).unwrap()
}

#[test]
fn creation_starts_at_frame_zero() {
    let r = renderer();
    assert_eq!(r.frame_number(), 0);
    assert_eq!(r.swapchain.params.image_count, 3);
    assert_eq!(r.swapchain.params.present_mode, PresentMode::FifoRelaxed);
    assert_eq!(r.swapchain.next_semaphore, 0);
    assert_eq!(r.swapchain.generation, 0);
}

#[test]
fn unsupported_format_is_rejected() {
    let mut info = create_info();
    info.surface_formats = vec![];
    let r = PoogieRenderer::builder().build(info);
    assert!(matches!(r, Err(CreateRendererError::UnsupportedFormat)));
}

#[test]
fn zero_window_fails_creation() {
    let mut info = create_info();
    info.window_extent = Extent2D { width: 0, height: 0 };
    let r = PoogieRenderer::builder().build(info);
    assert!(matches!(
        r,
        Err(CreateRendererError::Swapchain(CreateSwapchainError::ZeroSizedExtent))
    ));
}

fn run_successful_cycle(r: &mut PoogieRenderer, image_index: u32) -> FrameAction {
    let window = Extent2D { width: 1280, height: 720 };
    let a = r.draw(FrameEvent::Begin { window_extent: window });
    assert!(matches!(a, FrameAction::WaitFence { fence: 16 }));
    let a = r.draw(FrameEvent::FenceWaited);
    match a {
        FrameAction::Acquire { timeout_nanoseconds, .. } => {
            assert_eq!(timeout_nanoseconds, ACQUIRE_TIMEOUT_NS);
        }
        other => panic!("unexpected action: {other:?}"),
    }
    let render = r.draw(FrameEvent::AcquireReturned(AcquireOutcome::Success { image_index }));
    assert!(matches!(render, FrameAction::RenderAndPresent { .. }));
    let a = r.draw(FrameEvent::PresentReturned(PresentOutcome::Success));
    assert!(matches!(a, FrameAction::Complete));
    render
}

#[test]
fn frame_counter_counts_successful_cycles_only() {
    let mut r = renderer();
    run_successful_cycle(&mut r, 0);
    assert_eq!(r.frame_number(), 1);
    run_successful_cycle(&mut r, 1);
    assert_eq!(r.frame_number(), 2);

    // A cycle aborted by a stale acquisition leaves the counter alone.
    let window = Extent2D { width: 1280, height: 720 };
    r.draw(FrameEvent::Begin { window_extent: window });
    r.draw(FrameEvent::FenceWaited);
    let a = r.draw(FrameEvent::AcquireReturned(AcquireOutcome::Stale));
    assert!(matches!(a, FrameAction::SkipAndRecreate { error: DrawError::NoSwapchainImage }));
    assert_eq!(r.frame_number(), 2);
}

#[test]
fn stale_acquire_never_renders() {
    let mut r = renderer();
    let window = Extent2D { width: 1280, height: 720 };
    r.draw(FrameEvent::Begin { window_extent: window });
    r.draw(FrameEvent::FenceWaited);
    let a = r.draw(FrameEvent::AcquireReturned(AcquireOutcome::Stale));
    // The only action that resets the fence or submits is the render
    // directive; a stale acquisition must never produce it.
    assert!(!matches!(a, FrameAction::RenderAndPresent { .. }));
    assert!(matches!(a, FrameAction::SkipAndRecreate { error: DrawError::NoSwapchainImage }));
    assert_eq!(r.frame_number(), 0);
}

#[test]
fn acquire_timeout_retries_without_recreation() {
    let mut r = renderer();
    let window = Extent2D { width: 1280, height: 720 };
    r.draw(FrameEvent::Begin { window_extent: window });
    r.draw(FrameEvent::FenceWaited);
    let a = r.draw(FrameEvent::AcquireReturned(AcquireOutcome::TimedOut));
    assert!(matches!(a, FrameAction::Retry));
    assert_eq!(r.frame_number(), 0);
}

#[test]
fn stale_present_is_soft_and_uncounted() {
    let mut r = renderer();
    let window = Extent2D { width: 1280, height: 720 };
    r.draw(FrameEvent::Begin { window_extent: window });
    r.draw(FrameEvent::FenceWaited);
    r.draw(FrameEvent::AcquireReturned(AcquireOutcome::Success { image_index: 0 }));
    let a = r.draw(FrameEvent::PresentReturned(PresentOutcome::Stale));
    assert!(matches!(a, FrameAction::SkipAndRecreate { error: DrawError::BadSwapchainImage }));
    assert_eq!(r.frame_number(), 0);
}

#[test]
fn failed_present_is_fatal() {
    let mut r = renderer();
    let window = Extent2D { width: 1280, height: 720 };
    r.draw(FrameEvent::Begin { window_extent: window });
    r.draw(FrameEvent::FenceWaited);
    r.draw(FrameEvent::AcquireReturned(AcquireOutcome::Success { image_index: 0 }));
    let a = r.draw(FrameEvent::PresentReturned(PresentOutcome::Failed));
    assert!(matches!(a, FrameAction::Abort { error: DrawError::DeviceLost }));
}

#[test]
fn lost_device_at_acquire_is_fatal() {
    let mut r = renderer();
    let window = Extent2D { width: 1280, height: 720 };
    r.draw(FrameEvent::Begin { window_extent: window });
    r.draw(FrameEvent::FenceWaited);
    let a = r.draw(FrameEvent::AcquireReturned(AcquireOutcome::DeviceLost));
    assert!(matches!(a, FrameAction::Abort { error: DrawError::DeviceLost }));
}

#[test]
fn zero_window_defers_the_frame() {
    let mut r = renderer();
    let a = r.draw(FrameEvent::Begin { window_extent: Extent2D { width: 0, height: 720 } });
    assert!(matches!(a, FrameAction::Abort { error: DrawError::ZeroSizedExtent }));
    assert_eq!(r.frame_number(), 0);
}

#[test]
fn three_cycles_visit_each_slot_once() {
    let mut r = renderer();
    let mut slots = Vec::new();
    for k in 0..3u32 {
        let render = run_successful_cycle(&mut r, k);
        match render {
            FrameAction::RenderAndPresent { submit, .. } => {
                // Identify the slot by its acquire semaphore handle.
                slots.push(submit.wait_semaphore);
            }
            other => panic!("unexpected action: {other:?}"),
        }
    }
    assert_eq!(slots, vec![300, 301, 302]);
    // The fourth cycle reuses the first pair.
    let render = run_successful_cycle(&mut r, 0);
    match render {
        FrameAction::RenderAndPresent { submit, .. } => assert_eq!(submit.wait_semaphore, 300),
        other => panic!("unexpected action: {other:?}"),
    }
}

#[test]
fn render_directive_carries_the_frame_commands() {
    let mut r = renderer();
    let window = Extent2D { width: 1280, height: 720 };
    r.draw(FrameEvent::Begin { window_extent: window });
    r.draw(FrameEvent::FenceWaited);
    let a = r.draw(FrameEvent::AcquireReturned(AcquireOutcome::Success { image_index: 1 }));
    let extent = Extent2D { width: 1280, height: 720 };
    match a {
        FrameAction::RenderAndPresent { commands, submit, present } => {
            assert_eq!(commands[0], RenderCommand::BeginCommandBuffer);
            assert_eq!(commands[1], RenderCommand::SetViewport { extent });
            assert_eq!(commands[2], RenderCommand::SetScissor { extent });
            assert_eq!(commands[3], RenderCommand::BarrierToColorAttachment { image: 101 });
            assert!(matches!(
                commands[4],
                RenderCommand::BeginRendering { view: 201, .. }
            ));
            assert_eq!(commands[5], RenderCommand::BindPipeline { pipeline: 21 });
            assert_eq!(commands[6], RenderCommand::BindVertexBuffer { buffer: 31 });
            assert_eq!(commands[7], RenderCommand::Draw { vertex_count: 3 });
            assert_eq!(commands[8], RenderCommand::EndRendering);
            assert_eq!(commands[9], RenderCommand::BarrierToPresent { image: 101 });
            assert_eq!(commands[10], RenderCommand::EndCommandBuffer);
            assert_eq!(commands.len(), 11);

            assert_eq!(submit.wait_semaphore, 300);
            assert_eq!(submit.signal_semaphore, 400);
            assert_eq!(submit.fence, 16);
            assert_eq!(submit.command_buffer, 13);
            assert_eq!(submit.pool, 14);
            assert_eq!(submit.queue, 12);

            assert_eq!(present.wait_semaphore, 400);
            assert_eq!(present.image_index, 1);
            assert_eq!(present.swapchain, 9);
            assert_eq!(present.queue, 12);
        }
        other => panic!("unexpected action: {other:?}"),
    }
}

#[test]
fn renderer_recreate_rejects_zero_window() {
    let mut r = renderer();
    let status = r.recreate_swapchain(
        Extent2D { width: 0, height: 0 },
        &caps(),
        &vec![PresentMode::Fifo],
    );
    assert_eq!(status, Err(CreateSwapchainError::ZeroSizedExtent));
    assert_eq!(r.swapchain.state, SwapchainState::Live);
}

#[test]
fn renderer_recreate_and_install() {
    let mut r = renderer();
    let status = r.recreate_swapchain(
        Extent2D { width: 1920, height: 1080 },
        &caps(),
        &vec![PresentMode::Fifo, PresentMode::FifoRelaxed],
    );
    assert_eq!(status, Ok(RecreateStatus::TornDown));
    assert_eq!(r.swapchain.state, SwapchainState::Rebuilding);
    r.install_swapchain_resources(resources(3));
    assert_eq!(r.swapchain.state, SwapchainState::Live);
    assert_eq!(r.swapchain.generation, 1);
    assert_eq!(r.swapchain.params.extent, Extent2D { width: 1920, height: 1080 });
}

#[test]
fn terminate_releases_drawables_and_chain() {
    let mut r = renderer();
    run_successful_cycle(&mut r, 0);
    r.terminate();
    assert!(r.meshes.is_empty());
    assert_eq!(r.swapchain.state, SwapchainState::Destroyed);
    assert!(r.swapchain.image_views.is_empty());
    assert_eq!(r.frame_number(), 1);
}

#[test]
fn builder_options_are_kept() {
    let b = PoogieRenderer::builder();
    assert_eq!(b.app_name, "PoogieApp");
    assert!(!b.debug_graphics);
    assert!(b.vsync);
    let b = b.debug_graphics(true).vsync(false);
    assert!(b.debug_graphics);
    assert!(!b.vsync);
}
