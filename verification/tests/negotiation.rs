use poogie::surface::{
    choose_extent, choose_present_mode, Extent2D, PresentMode, SurfaceCapabilities,
    EXTENT_MATCH_WINDOW,
};
use poogie::swapchain::{create_params, CreateSwapchainError, SwapchainDesc, TRANSFORM_IDENTITY};

fn caps(min: u32, max: u32, extent: Extent2D) -> SurfaceCapabilities {
    SurfaceCapabilities {
        min_image_count: min,
        max_image_count: max,
        current_extent: extent,
        supports_identity_transform: true,
        current_transform: TRANSFORM_IDENTITY,
    }
}

fn sentinel_extent() -> Extent2D {
    Extent2D { width: EXTENT_MATCH_WINDOW, height: EXTENT_MATCH_WINDOW }
}

#[test]
fn vsync_prefers_relaxed_fifo() {
    let supported = vec![PresentMode::Fifo, PresentMode::FifoRelaxed, PresentMode::Mailbox];
    assert_eq!(choose_present_mode(true, &supported), PresentMode::FifoRelaxed);
}

#[test]
fn vsync_falls_back_to_fifo() {
    let supported = vec![PresentMode::Fifo, PresentMode::Mailbox];
    assert_eq!(choose_present_mode(true, &supported), PresentMode::Fifo);
}

#[test]
fn no_vsync_prefers_mailbox() {
    let supported = vec![PresentMode::Immediate, PresentMode::Mailbox, PresentMode::Fifo];
    assert_eq!(choose_present_mode(false, &supported), PresentMode::Mailbox);
}

#[test]
fn no_vsync_takes_immediate_without_mailbox() {
    let supported = vec![PresentMode::Immediate, PresentMode::Fifo];
    assert_eq!(choose_present_mode(false, &supported), PresentMode::Immediate);
}

#[test]
fn empty_support_falls_back_to_fifo() {
    let supported: Vec<PresentMode> = Vec::new();
    assert_eq!(choose_present_mode(true, &supported), PresentMode::Fifo);
    assert_eq!(choose_present_mode(false, &supported), PresentMode::Fifo);
}

#[test]
fn sentinel_extent_takes_window_size() {
    let c = caps(2, 0, sentinel_extent());
    let window = Extent2D { width: 800, height: 600 };
    assert_eq!(choose_extent(&c, window), Some(window));
}

#[test]
fn reported_extent_wins_over_window_size() {
    let reported = Extent2D { width: 1024, height: 768 };
    let c = caps(2, 0, reported);
    let window = Extent2D { width: 800, height: 600 };
    assert_eq!(choose_extent(&c, window), Some(reported));
}

#[test]
fn zero_extent_is_rejected() {
    let c = caps(2, 0, sentinel_extent());
    assert_eq!(choose_extent(&c, Extent2D { width: 0, height: 600 }), None);
    assert_eq!(choose_extent(&c, Extent2D { width: 800, height: 0 }), None);
}

#[test]
fn unbounded_range_gets_triple_buffering() {
    let desc = SwapchainDesc {
        surface_format: poogie::preferred_surface_format(),
        extent: Extent2D { width: 640, height: 480 },
        vsync: true,
    };
    let supported = vec![PresentMode::Fifo];
    let params = create_params(&desc, &caps(2, 0, sentinel_extent()), &supported).unwrap();
    assert_eq!(params.image_count, 3);
}

#[test]
fn image_count_is_clamped_to_range() {
    let desc = SwapchainDesc {
        surface_format: poogie::preferred_surface_format(),
        extent: Extent2D { width: 640, height: 480 },
        vsync: true,
    };
    let supported = vec![PresentMode::Fifo];
    let two = create_params(&desc, &caps(1, 2, sentinel_extent()), &supported).unwrap();
    assert_eq!(two.image_count, 2);
    let four = create_params(&desc, &caps(4, 8, sentinel_extent()), &supported).unwrap();
    assert_eq!(four.image_count, 4);
    let three = create_params(&desc, &caps(3, 3, sentinel_extent()), &supported).unwrap();
    assert_eq!(three.image_count, 3);
}

#[test]
fn zero_area_window_fails_creation() {
    let desc = SwapchainDesc {
        surface_format: poogie::preferred_surface_format(),
        extent: Extent2D { width: 0, height: 0 },
        vsync: true,
    };
    let supported = vec![PresentMode::Fifo];
    let r = create_params(&desc, &caps(2, 0, sentinel_extent()), &supported);
    assert_eq!(r, Err(CreateSwapchainError::ZeroSizedExtent));
}

#[test]
fn non_identity_transform_is_kept() {
    let mut c = caps(2, 0, sentinel_extent());
    c.supports_identity_transform = false;
    c.current_transform = 0x10;
    let desc = SwapchainDesc {
        surface_format: poogie::preferred_surface_format(),
        extent: Extent2D { width: 640, height: 480 },
        vsync: true,
    };
    let params = create_params(&desc, &c, &vec![PresentMode::Fifo]).unwrap();
    assert_eq!(params.pre_transform, 0x10);
}

#[test]
fn example_negotiation_at_1280_by_720() {
    // Capabilities report min=2, max=0 (unbounded), current extent the
    // match-window sentinel; the window is 1280x720 and vsync is on.
    let c = caps(2, 0, sentinel_extent());
    let desc = SwapchainDesc {
        surface_format: poogie::preferred_surface_format(),
        extent: Extent2D { width: 1280, height: 720 },
        vsync: true,
    };
    let with_relaxed = create_params(
        &desc,
        &c,
        &vec![PresentMode::Fifo, PresentMode::FifoRelaxed],
    )
    .unwrap();
    assert_eq!(with_relaxed.image_count, 3);
    assert_eq!(with_relaxed.extent, Extent2D { width: 1280, height: 720 });
    assert_eq!(with_relaxed.present_mode, PresentMode::FifoRelaxed);

    let without_relaxed = create_params(&desc, &c, &vec![PresentMode::Fifo]).unwrap();
    assert_eq!(without_relaxed.image_count, 3);
    assert_eq!(without_relaxed.extent, Extent2D { width: 1280, height: 720 });
    assert_eq!(without_relaxed.present_mode, PresentMode::Fifo);
}
