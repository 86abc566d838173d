//! The device context: which physical device is picked, which queue
//! families serve graphics and transfer work, and which device extensions
//! must be present. The raw device creation is the caller's; this module
//! owns the decisions and the resulting handles as plain tokens.

use vstd::prelude::*;

verus! {

/// Queue capability bit for graphics work.
pub const QUEUE_GRAPHICS_BIT: u32 = 0x1;

/// Queue capability bit for transfer work.
pub const QUEUE_TRANSFER_BIT: u32 = 0x4;

/// Device type code for a discrete GPU.
pub const DEVICE_TYPE_DISCRETE_GPU: u32 = 2;

/// Device type code for an integrated GPU.
pub const DEVICE_TYPE_INTEGRATED_GPU: u32 = 1;

/// Device type code for a virtual GPU.
pub const DEVICE_TYPE_VIRTUAL_GPU: u32 = 3;

/// One queue family a physical device offers.
#[derive(Clone, Copy, Debug, PartialEq, Eq, Structural)]
pub struct QueueFamily {
    /// The family's index on its device.
    pub index: u32,
    /// The family's capability bits.
    pub queue_flags: u32,
    /// How many queues the family offers.
    pub queue_count: u32,
}

impl QueueFamily {
    /// Whether the family has every capability bit of `mask`.
    pub open spec fn spec_supports(self, mask: u32) -> bool {
        self.queue_flags & mask == mask
    }
}

/// What the renderer reads of one physical device.
#[derive(Debug)]
pub struct PhysicalDevice {
    /// The raw physical-device handle.
    pub raw: u64,
    /// The device type code the backend reports.
    pub device_type: u32,
    /// Whether the device supports dynamic rendering.
    pub dynamic_rendering_supported: bool,
    /// The queue families the device offers, in backend order.
    pub queue_families: Vec<QueueFamily>,
}

/// How strongly a device type is preferred: discrete over integrated over
/// virtual over anything else.
pub open spec fn spec_device_rank(device_type: u32) -> int {
    if device_type == DEVICE_TYPE_DISCRETE_GPU {
        100int
    } else if device_type == DEVICE_TYPE_INTEGRATED_GPU {
        10int
    } else if device_type == DEVICE_TYPE_VIRTUAL_GPU {
        1int
    } else {
        0int
    }
}

/// Ranks a device type for selection.
pub fn device_rank(device_type: u32) -> (r: u32)
    ensures
        r == spec_device_rank(device_type),
{
    if device_type == DEVICE_TYPE_DISCRETE_GPU {
        100
    } else if device_type == DEVICE_TYPE_INTEGRATED_GPU {
        10
    } else if device_type == DEVICE_TYPE_VIRTUAL_GPU {
        1
    } else {
        0
    }
}

/// Picks the physical device to use: among the devices that support dynamic
/// rendering, the first one of the highest rank, in the backend's
/// enumeration order. `None` when no device supports dynamic rendering.
pub fn select_physical_device(devices: &Vec<PhysicalDevice>) -> (r: Option<usize>)
    ensures
        (r is None <==> forall|j: int|
            0 <= j < devices@.len() ==> !devices@[j].dynamic_rendering_supported),
        (r matches Some(i) ==> {
            &&& i < devices@.len()
            &&& devices@[i as int].dynamic_rendering_supported
            &&& forall|j: int|
                0 <= j < devices@.len() && devices@[j].dynamic_rendering_supported
                    ==> spec_device_rank(devices@[j].device_type) <= spec_device_rank(
                    devices@[i as int].device_type,
                )
            &&& forall|j: int|
                0 <= j < i && devices@[j].dynamic_rendering_supported ==> spec_device_rank(
                    devices@[j].device_type,
                ) < spec_device_rank(devices@[i as int].device_type)
        }),
{
    let mut best: Option<usize> = None;
    let mut best_rank: u32 = 0;
    let mut j: usize = 0;
    while j < devices.len()
        invariant
            j <= devices@.len(),
            (best is None <==> forall|k: int|
                0 <= k < j ==> !devices@[k].dynamic_rendering_supported),
            (best matches Some(i) ==> {
                &&& i < j
                &&& devices@[i as int].dynamic_rendering_supported
                &&& best_rank == spec_device_rank(devices@[i as int].device_type)
                &&& forall|k: int|
                    0 <= k < j && devices@[k].dynamic_rendering_supported ==> spec_device_rank(
                        devices@[k].device_type,
                    ) <= best_rank
                &&& forall|k: int|
                    0 <= k < i && devices@[k].dynamic_rendering_supported ==> spec_device_rank(
                        devices@[k].device_type,
                    ) < best_rank
            }),
        decreases devices@.len() - j,
    {
        if devices[j].dynamic_rendering_supported {
            let rank = device_rank(devices[j].device_type);
            match best {
                None => {
                    best = Some(j);
                    best_rank = rank;
                },
                Some(_) => {
                    if rank > best_rank {
                        best = Some(j);
                        best_rank = rank;
                    }
                },
            }
        }
        j += 1;
    }
    best
}

/// Picks the first queue family whose capability bits cover `mask`, skipping
/// the family at index `except` if one is given.
fn select_queue_family(families: &Vec<QueueFamily>, mask: u32, except: Option<u32>) -> (r: Option<
    QueueFamily,
>)
    ensures
        (r is None <==> forall|j: int|
            0 <= j < families@.len() ==> !(families@[j].spec_supports(mask) && Some(
                families@[j].index,
            ) != except)),
        (r matches Some(f) ==> exists|i: int|
            {
                &&& 0 <= i < families@.len()
                &&& families@[i] == f
                &&& f.spec_supports(mask)
                &&& Some(f.index) != except
                &&& forall|j: int|
                    0 <= j < i ==> !(#[trigger] families@[j].spec_supports(mask) && Some(
                        families@[j].index,
                    ) != except)
            }),
{
    let mut j: usize = 0;
    while j < families.len()
        invariant
            j <= families@.len(),
            forall|k: int|
                0 <= k < j ==> !(#[trigger] families@[k].spec_supports(mask) && Some(
                    families@[k].index,
                ) != except),
        decreases families@.len() - j,
    {
        let f = families[j];
        let excluded = match except {
            Some(e) => f.index == e,
            None => false,
        };
        if f.queue_flags & mask == mask && !excluded {
            assert(families@[j as int].spec_supports(mask));
            return Some(f);
        }
        j += 1;
    }
    None
}

/// Picks the first queue family that can serve graphics work.
pub fn select_graphics_queue_family(families: &Vec<QueueFamily>) -> (r: Option<QueueFamily>)
    ensures
        (r is None <==> forall|j: int|
            0 <= j < families@.len() ==> !families@[j].spec_supports(QUEUE_GRAPHICS_BIT)),
        (r matches Some(f) ==> exists|i: int|
            {
                &&& 0 <= i < families@.len()
                &&& families@[i] == f
                &&& f.spec_supports(QUEUE_GRAPHICS_BIT)
                &&& forall|j: int|
                    0 <= j < i ==> !(#[trigger] families@[j].spec_supports(QUEUE_GRAPHICS_BIT))
            }),
{
    let r = select_queue_family(families, QUEUE_GRAPHICS_BIT, None);
    r
}

/// Picks the first queue family that can serve transfer work and is not the
/// graphics family, so transfers may run beside rendering; `None` when the
/// device offers no such family.
pub fn select_transfer_queue_family(
    families: &Vec<QueueFamily>,
    graphics_family_index: u32,
) -> (r: Option<QueueFamily>)
    ensures
        (r is None <==> forall|j: int|
            0 <= j < families@.len() ==> !(families@[j].spec_supports(QUEUE_TRANSFER_BIT)
                && families@[j].index != graphics_family_index)),
        (r matches Some(f) ==> f.spec_supports(QUEUE_TRANSFER_BIT) && f.index
            != graphics_family_index),
{
    let r = select_queue_family(families, QUEUE_TRANSFER_BIT, Some(graphics_family_index));
    proof {
        if r is None {
            assert forall|j: int| 0 <= j < families@.len() implies !(families@[j].spec_supports(
                QUEUE_TRANSFER_BIT,
            ) && families@[j].index != graphics_family_index) by {
                assert(!(families@[j].spec_supports(QUEUE_TRANSFER_BIT) && Some(families@[j].index)
                    != Some(graphics_family_index)));
            }
        }
    }
    r
}

/// Why the device context could not be set up; fatal at initialization.
#[derive(Debug)]
pub enum DeviceInitError {
    /// A required device extension is missing from the supported set.
    UnsupportedExtension(String),
    /// No queue family of the picked device can serve graphics work.
    NoGraphicsQueueFamily,
}

/// Returns whether `supported` lists the name `name`.
fn supports_name(supported: &Vec<String>, name: &String) -> (r: bool)
    ensures
        r == supported@.map_values(|s: String| s@).contains(name@),
{
    let ghost views = supported@.map_values(|s: String| s@);
    let mut i: usize = 0;
    while i < supported.len()
        invariant
            i <= supported@.len(),
            views == supported@.map_values(|s: String| s@),
            forall|j: int| 0 <= j < i ==> views[j] != name@,
        decreases supported@.len() - i,
    {
        if supported[i].eq(name) {
            assert(views[i as int] == name@);
            return true;
        }
        i += 1;
    }
    false
}

/// Checks that every required device extension is among the supported ones,
/// returning the first missing name otherwise.
pub fn check_device_extensions(supported: &Vec<String>) -> (r: Result<(), DeviceInitError>)
    ensures
        (r is Ok <==> supported@.map_values(|s: String| s@).contains("VK_KHR_swapchain"@)),
        (r matches Err(e) ==> e matches DeviceInitError::UnsupportedExtension(n) && n@
            == "VK_KHR_swapchain"@),
{
    let name = String::from_str("VK_KHR_swapchain");
    if supports_name(supported, &name) {
        Ok(())
    } else {
        Err(DeviceInitError::UnsupportedExtension(name))
    }
}

/// One backend queue: its raw handle and the family it was taken from.
#[derive(Clone, Copy, Debug, PartialEq, Eq, Structural)]
pub struct Queue {
    pub raw: u64,
    pub family: QueueFamily,
}

/// The shared command pool and buffer, and the fence that guards their
/// reuse.
#[derive(Clone, Copy, Debug, PartialEq, Eq, Structural)]
pub struct CommandBuffer {
    pub raw: u64,
    pub pool: u64,
    pub submit_done_fence: u64,
}

/// Raw handles the caller creates once the families are picked.
#[derive(Clone, Copy, Debug, PartialEq, Eq, Structural)]
pub struct DeviceHandles {
    /// The raw logical device.
    pub raw: u64,
    /// The graphics queue's raw handle.
    pub graphics_queue: u64,
    /// The transfer queue's raw handle, if a transfer family was picked.
    pub transfer_queue: u64,
    /// The shared command buffer, its pool, and its fence.
    pub main_command_buffer: CommandBuffer,
    /// The shared render-complete fence, created signaled.
    pub render_fence: u64,
}

/// The device context: the logical device and the queues used for
/// submission, immutable after creation.
#[derive(Debug)]
pub struct Device {
    /// The raw logical device.
    pub raw: u64,
    /// The queue all rendering is submitted to.
    pub graphics_queue: Queue,
    /// An optional distinct transfer queue.
    pub transfer_queue: Option<Queue>,
    /// The shared command buffer; exactly one frame records into it at a
    /// time.
    pub main_command_buffer: CommandBuffer,
    /// The shared render-complete fence; exactly one frame is in flight.
    pub render_fence: u64,
}

impl Device {
    /// Sets the device context up: checks the required extensions against
    /// the supported set, picks the graphics and transfer queue families,
    /// and binds the caller's raw handles to them.
    pub fn new(
        supported_extensions: &Vec<String>,
        families: &Vec<QueueFamily>,
        handles: DeviceHandles,
    ) -> (r: Result<Device, DeviceInitError>)
        ensures
            (r matches Err(e) ==> match e {
                DeviceInitError::UnsupportedExtension(n) => n@ == "VK_KHR_swapchain"@
                    && !supported_extensions@.map_values(|s: String| s@).contains(
                    "VK_KHR_swapchain"@,
                ),
                DeviceInitError::NoGraphicsQueueFamily => forall|j: int|
                    0 <= j < families@.len() ==> !families@[j].spec_supports(QUEUE_GRAPHICS_BIT),
            }),
            (r matches Ok(d) ==> {
                &&& supported_extensions@.map_values(|s: String| s@).contains("VK_KHR_swapchain"@)
                &&& d.raw == handles.raw
                &&& d.graphics_queue.raw == handles.graphics_queue
                &&& d.graphics_queue.family.spec_supports(QUEUE_GRAPHICS_BIT)
                &&& (exists|i: int|
                    {
                        &&& 0 <= i < families@.len()
                        &&& families@[i] == d.graphics_queue.family
                        &&& forall|j: int|
                            0 <= j < i ==> !(#[trigger] families@[j].spec_supports(
                                QUEUE_GRAPHICS_BIT,
                            ))
                    })
                &&& (d.transfer_queue matches Some(q) ==> q.raw == handles.transfer_queue
                    && q.family.spec_supports(QUEUE_TRANSFER_BIT) && q.family.index
                    != d.graphics_queue.family.index)
                &&& d.main_command_buffer == handles.main_command_buffer
                &&& d.render_fence == handles.render_fence
            }),
            (r is Err <==> !supported_extensions@.map_values(|s: String| s@).contains(
                "VK_KHR_swapchain"@,
            ) || (forall|j: int|
                0 <= j < families@.len() ==> !families@[j].spec_supports(QUEUE_GRAPHICS_BIT))),
    {
        if let Err(e) = check_device_extensions(supported_extensions) {
            return Err(e);
        }
        let graphics_family = match select_graphics_queue_family(families) {
            Some(f) => f,
            None => {
                return Err(DeviceInitError::NoGraphicsQueueFamily);
            },
        };
        let transfer_family = select_transfer_queue_family(families, graphics_family.index);
        let transfer_queue = match transfer_family {
            Some(f) => Some(Queue { raw: handles.transfer_queue, family: f }),
            None => None,
        };
        Ok(
            Device {
                raw: handles.raw,
                graphics_queue: Queue { raw: handles.graphics_queue, family: graphics_family },
                transfer_queue,
                main_command_buffer: handles.main_command_buffer,
                render_fence: handles.render_fence,
            },
        )
    }
}

} // verus!
