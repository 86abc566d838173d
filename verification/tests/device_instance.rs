use poogie::device::{
    check_device_extensions, select_graphics_queue_family, select_physical_device,
    select_transfer_queue_family, CommandBuffer, Device, DeviceHandles, DeviceInitError,
    PhysicalDevice, QueueFamily, DEVICE_TYPE_DISCRETE_GPU, DEVICE_TYPE_INTEGRATED_GPU,
    QUEUE_GRAPHICS_BIT, QUEUE_TRANSFER_BIT,
};
use poogie::instance::{make_api_version, Instance};

fn pdevice(raw: u64, device_type: u32, dynamic_rendering: bool) -> PhysicalDevice {
    PhysicalDevice {
        raw,
        device_type,
        dynamic_rendering_supported: dynamic_rendering,
        queue_families: Vec::new(),
    }
}

#[test]
fn api_version_packs_bits() {
    // variant 0, major 1, minor 3, patch 0: 1 << 22 | 3 << 12.
    assert_eq!(make_api_version(0, 1, 3, 0), 4_206_592);
    assert_eq!(make_api_version(0, 1, 0, 0), 1 << 22);
    assert_eq!(make_api_version(1, 0, 0, 0), 1 << 29);
    assert_eq!(make_api_version(0, 0, 0, 7), 7);
}

#[test]
fn instance_extensions_without_debug() {
    let instance = Instance::builder()
        .required_extensions(vec!["VK_KHR_xlib_surface".to_string()])
        .build();
    assert_eq!(instance.extensions, vec!["VK_KHR_surface", "VK_KHR_xlib_surface"]);
    assert!(instance.layers.is_empty());
    assert!(!instance.debug_graphics);
    assert_eq!(instance.api_version, make_api_version(0, 1, 3, 0));
}

#[test]
fn instance_extensions_with_debug() {
    let instance = Instance::builder()
        .required_extensions(vec!["VK_KHR_wayland_surface".to_string()])
        .debug_graphics(true)
        .build();
    assert_eq!(
        instance.extensions,
        vec!["VK_KHR_surface", "VK_EXT_debug_utils", "VK_KHR_wayland_surface"]
    );
    assert_eq!(instance.layers, vec!["VK_LAYER_KHRONOS_validation"]);
    assert!(instance.debug_graphics);
}

#[test]
fn discrete_gpu_outranks_integrated() {
    let devices = vec![
        pdevice(1, DEVICE_TYPE_INTEGRATED_GPU, true),
        pdevice(2, DEVICE_TYPE_DISCRETE_GPU, true),
        pdevice(3, DEVICE_TYPE_INTEGRATED_GPU, true),
    ];
    assert_eq!(select_physical_device(&devices), Some(1));
}

#[test]
fn rank_ties_keep_enumeration_order() {
    let devices = vec![
        pdevice(1, DEVICE_TYPE_DISCRETE_GPU, true),
        pdevice(2, DEVICE_TYPE_DISCRETE_GPU, true),
    ];
    assert_eq!(select_physical_device(&devices), Some(0));
}

#[test]
fn dynamic_rendering_is_required() {
    let devices = vec![
        pdevice(1, DEVICE_TYPE_DISCRETE_GPU, false),
        pdevice(2, DEVICE_TYPE_INTEGRATED_GPU, true),
    ];
    assert_eq!(select_physical_device(&devices), Some(1));
    let none = vec![pdevice(1, DEVICE_TYPE_DISCRETE_GPU, false)];
    assert_eq!(select_physical_device(&none), None);
}

#[test]
fn graphics_family_is_the_first_capable() {
    let families = vec![
        QueueFamily { index: 0, queue_flags: QUEUE_TRANSFER_BIT, queue_count: 1 },
        QueueFamily { index: 1, queue_flags: QUEUE_GRAPHICS_BIT | QUEUE_TRANSFER_BIT, queue_count: 4 },
        QueueFamily { index: 2, queue_flags: QUEUE_GRAPHICS_BIT, queue_count: 1 },
    ];
    let f = select_graphics_queue_family(&families).unwrap();
    assert_eq!(f.index, 1);
    assert_eq!(select_graphics_queue_family(&Vec::new()), None);
}

#[test]
fn transfer_family_avoids_the_graphics_family() {
    let families = vec![
        QueueFamily { index: 0, queue_flags: QUEUE_GRAPHICS_BIT | QUEUE_TRANSFER_BIT, queue_count: 1 },
        QueueFamily { index: 1, queue_flags: QUEUE_TRANSFER_BIT, queue_count: 2 },
    ];
    let f = select_transfer_queue_family(&families, 0).unwrap();
    assert_eq!(f.index, 1);
    let only_graphics = vec![QueueFamily {
        index: 0,
        queue_flags: QUEUE_GRAPHICS_BIT | QUEUE_TRANSFER_BIT,
        queue_count: 1,
    }];
    assert_eq!(select_transfer_queue_family(&only_graphics, 0), None);
}

#[test]
fn swapchain_extension_is_required() {
    let with = vec!["VK_KHR_swapchain".to_string(), "VK_KHR_synchronization2".to_string()];
    assert!(check_device_extensions(&with).is_ok());
    let without = vec!["VK_KHR_synchronization2".to_string()];
    match check_device_extensions(&without) {
        Err(DeviceInitError::UnsupportedExtension(name)) => {
            assert_eq!(name, "VK_KHR_swapchain");
        }
        other => panic!("unexpected extension check result: {other:?}"),
    }
}

#[test]
fn device_binds_handles_to_picked_families() {
    let families = vec![
        QueueFamily { index: 0, queue_flags: QUEUE_GRAPHICS_BIT, queue_count: 1 },
        QueueFamily { index: 1, queue_flags: QUEUE_TRANSFER_BIT, queue_count: 1 },
    ];
    let supported = vec!["VK_KHR_swapchain".to_string()];
    let handles = DeviceHandles {
        raw: 1,
        graphics_queue: 2,
        transfer_queue: 3,
        main_command_buffer: CommandBuffer { raw: 4, pool: 5, submit_done_fence: 6 },
        render_fence: 7,
    };
    let d = Device::new(&supported, &families, handles).unwrap();
    assert_eq!(d.raw, 1);
    assert_eq!(d.graphics_queue.raw, 2);
    assert_eq!(d.graphics_queue.family.index, 0);
    let t = d.transfer_queue.unwrap();
    assert_eq!(t.raw, 3);
    assert_eq!(t.family.index, 1);
    assert_eq!(d.render_fence, 7);
}

#[test]
fn device_without_graphics_family_fails() {
    let families = vec![QueueFamily { index: 0, queue_flags: QUEUE_TRANSFER_BIT, queue_count: 1 }];
    let supported = vec!["VK_KHR_swapchain".to_string()];
    let handles = DeviceHandles {
        raw: 1,
        graphics_queue: 2,
        transfer_queue: 3,
        main_command_buffer: CommandBuffer { raw: 4, pool: 5, submit_done_fence: 6 },
        render_fence: 7,
    };
    let r = Device::new(&supported, &families, handles);
    assert!(matches!(r, Err(DeviceInitError::NoGraphicsQueueFamily)));
}
