//! The swapchain manager: negotiates a chain of presentable images, owns the
//! per-slot semaphore ring, and recovers from surface resize or staleness.
//!
//! Backend objects (the raw chain, images, views, semaphores) are created by
//! the caller, which hands their handles in as plain tokens; the manager owns
//! the negotiation and the lifecycle state, and tells the caller which
//! resources to use each frame.

use vstd::prelude::*;

use crate::surface::{
    choose_extent, choose_present_mode, spec_choose_extent, spec_choose_present_mode, Extent2D,
    PresentMode, SurfaceCapabilities, SurfaceFormat,
};

verus! {

/// Bit code of the identity surface transform.
pub const TRANSFORM_IDENTITY: u32 = 1;

/// What a new chain is asked to be. Immutable once a chain instance exists;
/// any change forces full recreation.
#[derive(Clone, Copy, Debug, PartialEq, Eq, Structural)]
pub struct SwapchainDesc {
    pub surface_format: SurfaceFormat,
    pub extent: Extent2D,
    pub vsync: bool,
}

/// The negotiated parameters of one chain generation, computed fresh from
/// the surface capabilities on every creation or recreation.
#[derive(Clone, Copy, Debug, PartialEq, Eq, Structural)]
pub struct SwapchainParams {
    pub image_count: u32,
    pub extent: Extent2D,
    pub present_mode: PresentMode,
    pub pre_transform: u32,
    pub surface_format: SurfaceFormat,
}

/// Why a chain could not be created.
#[derive(Clone, Copy, Debug, PartialEq, Eq, Structural)]
pub enum CreateSwapchainError {
    /// Height or width of the chosen extent is zero; the caller must defer
    /// creation until the window reports a non-zero size.
    ZeroSizedExtent,
}

/// The number of presentable images to ask for: triple buffering when the
/// capability range allows, clamped to `[min, max]` (a zero maximum meaning
/// unbounded).
pub open spec fn spec_image_count(caps: SurfaceCapabilities) -> u32 {
    let preferred: u32 = if caps.min_image_count >= 3 {
        caps.min_image_count
    } else {
        3
    };
    if caps.max_image_count != 0 && preferred > caps.max_image_count {
        caps.max_image_count
    } else {
        preferred
    }
}

/// The chosen image count always lies within the reported capability range
/// (a zero maximum meaning unbounded).
pub proof fn lemma_image_count_in_range(caps: SurfaceCapabilities)
    requires
        caps.spec_valid(),
    ensures
        caps.min_image_count <= spec_image_count(caps),
        caps.max_image_count != 0 ==> spec_image_count(caps) <= caps.max_image_count,
{
}

/// The chain parameters negotiation: extent selection, triple-buffer
/// preference, present-mode preference, and transform choice.
pub open spec fn spec_create_params(
    desc: SwapchainDesc,
    caps: SurfaceCapabilities,
    supported_modes: Seq<PresentMode>,
) -> Result<SwapchainParams, CreateSwapchainError> {
    match spec_choose_extent(caps, desc.extent) {
        None => Err(CreateSwapchainError::ZeroSizedExtent),
        Some(extent) => Ok(
            SwapchainParams {
                image_count: spec_image_count(caps),
                extent,
                present_mode: spec_choose_present_mode(desc.vsync, supported_modes),
                pre_transform: if caps.supports_identity_transform {
                    TRANSFORM_IDENTITY
                } else {
                    caps.current_transform
                },
                surface_format: desc.surface_format,
            },
        ),
    }
}

/// Negotiates the parameters of a new chain generation from a fresh
/// capability report, failing only on a zero-area extent.
pub fn create_params(
    desc: &SwapchainDesc,
    caps: &SurfaceCapabilities,
    supported_modes: &Vec<PresentMode>,
) -> (r: Result<SwapchainParams, CreateSwapchainError>)
    ensures
        r == spec_create_params(*desc, *caps, supported_modes@),
{
    let extent = match choose_extent(caps, desc.extent) {
        None => {
            return Err(CreateSwapchainError::ZeroSizedExtent);
        },
        Some(e) => e,
    };
    let preferred: u32 = if caps.min_image_count >= 3 {
        caps.min_image_count
    } else {
        3
    };
    let image_count: u32 = if caps.max_image_count != 0 && preferred > caps.max_image_count {
        caps.max_image_count
    } else {
        preferred
    };
    let present_mode = choose_present_mode(desc.vsync, supported_modes);
    let pre_transform: u32 = if caps.supports_identity_transform {
        TRANSFORM_IDENTITY
    } else {
        caps.current_transform
    };
    Ok(
        SwapchainParams {
            image_count,
            extent,
            present_mode,
            pre_transform,
            surface_format: desc.surface_format,
        },
    )
}

/// Handles of the backend objects of one chain generation, created by the
/// caller after negotiation.
#[derive(Debug)]
pub struct SwapchainResources {
    /// The raw chain object.
    pub raw: u64,
    /// One presentable image per slot, owned by the platform compositor.
    pub images: Vec<u64>,
    /// One 2D view per image, application-destroyed.
    pub image_views: Vec<u64>,
    /// One acquire semaphore per slot.
    pub acquire_semaphores: Vec<u64>,
    /// One finished-render semaphore per slot.
    pub finished_render_semaphores: Vec<u64>,
}

impl SwapchainResources {
    /// The resource set carries exactly `n` images, views, and semaphore
    /// pairs.
    pub open spec fn spec_matches_count(self, n: u32) -> bool {
        &&& self.images.len() == n
        &&& self.image_views.len() == n
        &&& self.acquire_semaphores.len() == n
        &&& self.finished_render_semaphores.len() == n
    }
}

/// The lifecycle of a chain.
#[derive(Clone, Copy, Debug, PartialEq, Eq, Structural)]
pub enum SwapchainState {
    /// The chain holds presentable images and may serve acquisitions.
    Live,
    /// The old generation is torn down; new resources are not yet installed.
    Rebuilding,
    /// The chain is gone for good.
    Destroyed,
}

/// One acquired presentable image together with the semaphore pair of the
/// ring slot that guards it this frame.
#[derive(Clone, Copy, Debug, PartialEq, Eq, Structural)]
pub struct SwapchainImage {
    /// The image handle, borrowed from the compositor until presented.
    pub image: u64,
    /// The image index the backend returned.
    pub index: u32,
    /// Signaled when the image is ready to be rendered to.
    pub acquire_semaphore: u64,
    /// To be signaled when rendering to the image is finished.
    pub finished_render_semaphore: u64,
    /// The ring slot the semaphore pair was taken from.
    pub slot: usize,
}

/// What the backend answered to an acquisition request.
#[derive(Clone, Copy, Debug, PartialEq, Eq, Structural)]
pub enum AcquireOutcome {
    /// The backend handed out the image at `image_index`.
    Success { image_index: u32 },
    /// The surface is out of date or suboptimal; the chain must be recreated.
    Stale,
    /// The bounded wait expired; try again next frame.
    TimedOut,
    /// The device is lost or the backend failed; fatal.
    DeviceLost,
}

/// A non-fatal acquisition result.
#[derive(Clone, Copy, Debug, PartialEq, Eq, Structural)]
pub enum AcquireStatus {
    /// An image was acquired.
    Acquired(SwapchainImage),
    /// The surface went stale: skip this frame and recreate the chain.
    Stale,
    /// The bounded wait expired: skip this frame and try again.
    TimedOut,
}

/// A fatal acquisition failure, propagated to the caller.
#[derive(Clone, Copy, Debug, PartialEq, Eq, Structural)]
pub enum AcquireError {
    DeviceLost,
}

/// What `recreate` decided.
#[derive(Clone, Copy, Debug, PartialEq, Eq, Structural)]
pub enum RecreateStatus {
    /// The new extent has zero area (or the surface reports one): nothing
    /// was touched; retry on the next resize notification.
    Skipped,
    /// The old generation was torn down; install fresh resources next.
    TornDown,
}

/// The swapchain manager.
#[derive(Debug)]
pub struct Swapchain {
    /// The raw chain object of the live generation, 0 when none exists.
    pub raw: u64,
    /// What this chain was asked to be.
    pub desc: SwapchainDesc,
    /// What was negotiated for the live generation.
    pub params: SwapchainParams,
    /// One presentable image handle per slot.
    pub images: Vec<u64>,
    /// One view handle per image.
    pub image_views: Vec<u64>,
    /// One acquire semaphore per slot.
    pub acquire_semaphores: Vec<u64>,
    /// One finished-render semaphore per slot.
    pub finished_render_semaphores: Vec<u64>,
    /// The round-robin ring cursor; advances on every acquisition request,
    /// independent of which image index the backend returns.
    pub next_semaphore: usize,
    /// Counts full teardown-and-rebuild cycles.
    pub generation: u64,
    /// Where the chain stands in its lifecycle.
    pub state: SwapchainState,
}

impl Swapchain {
    /// Well-formedness: a live generation holds exactly N images, N views,
    /// and N semaphore pairs, its cursor points at a slot, and its extent is
    /// never zero.
    pub open spec fn wf(self) -> bool {
        &&& self.state is Live ==> {
            &&& self.images.len() == self.params.image_count
            &&& self.image_views.len() == self.params.image_count
            &&& self.acquire_semaphores.len() == self.params.image_count
            &&& self.finished_render_semaphores.len() == self.params.image_count
            &&& self.next_semaphore < self.params.image_count
        }
        &&& !(self.state is Destroyed) ==> {
            &&& self.params.image_count >= 1
            &&& !self.params.extent.spec_is_zero()
        }
    }

    /// Assembles a live chain from negotiated parameters and the backend
    /// resources created for them, with the ring cursor reset to 0.
    pub fn new(desc: SwapchainDesc, params: SwapchainParams, res: SwapchainResources) -> (sc:
        Swapchain)
        requires
            res.spec_matches_count(params.image_count),
            params.image_count >= 1,
            !params.extent.spec_is_zero(),
        ensures
            sc.wf(),
            sc.state is Live,
            sc.desc == desc,
            sc.params == params,
            sc.raw == res.raw,
            sc.images@ == res.images@,
            sc.image_views@ == res.image_views@,
            sc.acquire_semaphores@ == res.acquire_semaphores@,
            sc.finished_render_semaphores@ == res.finished_render_semaphores@,
            sc.next_semaphore == 0,
            sc.generation == 0,
    {
        Swapchain {
            raw: res.raw,
            desc,
            params,
            images: res.images,
            image_views: res.image_views,
            acquire_semaphores: res.acquire_semaphores,
            finished_render_semaphores: res.finished_render_semaphores,
            next_semaphore: 0,
            generation: 0,
            state: SwapchainState::Live,
        }
    }

    /// The slot the ring cursor advances to after one acquisition.
    pub open spec fn spec_next_cursor(self) -> int {
        (self.next_semaphore + 1) % (self.params.image_count as int)
    }

    /// What an acquisition returns for a given backend answer: on success,
    /// the image at the returned index together with the semaphore pair at
    /// the ring cursor; staleness and timeout as distinguished non-fatal
    /// results; anything else as a fatal error.
    pub open spec fn spec_acquire_result(self, outcome: AcquireOutcome) -> Result<
        AcquireStatus,
        AcquireError,
    > {
        match outcome {
            AcquireOutcome::Success { image_index } => Ok(
                AcquireStatus::Acquired(
                    SwapchainImage {
                        image: self.images@[image_index as int],
                        index: image_index,
                        acquire_semaphore: self.acquire_semaphores@[self.next_semaphore as int],
                        finished_render_semaphore:
                            self.finished_render_semaphores@[self.next_semaphore as int],
                        slot: self.next_semaphore,
                    },
                ),
            ),
            AcquireOutcome::Stale => Ok(AcquireStatus::Stale),
            AcquireOutcome::TimedOut => Ok(AcquireStatus::TimedOut),
            AcquireOutcome::DeviceLost => Err(AcquireError::DeviceLost),
        }
    }

    /// Takes the semaphore pair at the current ring cursor and advances the
    /// cursor, whatever the backend answered to the acquisition request made
    /// with that pair's acquire semaphore.
    pub fn acquire_next_image(
        &mut self,
        outcome: AcquireOutcome,
    ) -> (r: Result<AcquireStatus, AcquireError>)
        requires
            old(self).wf(),
            old(self).state is Live,
            (outcome matches AcquireOutcome::Success { image_index } ==> image_index < old(
                self,
            ).params.image_count),
        ensures
            final(self).wf(),
            r == old(self).spec_acquire_result(outcome),
            final(self).next_semaphore == old(self).spec_next_cursor(),
            *final(self) == (Swapchain { next_semaphore: final(self).next_semaphore, ..*old(self) }),
    {
        let slot = self.next_semaphore;
        let acquire_semaphore = self.acquire_semaphores[slot];
        let finished_render_semaphore = self.finished_render_semaphores[slot];
        self.next_semaphore = (slot + 1) % (self.params.image_count as usize);
        match outcome {
            AcquireOutcome::Success { image_index } => {
                let image = self.images[image_index as usize];
                Ok(
                    AcquireStatus::Acquired(
                        SwapchainImage {
                            image,
                            index: image_index,
                            acquire_semaphore,
                            finished_render_semaphore,
                            slot,
                        },
                    ),
                )
            },
            AcquireOutcome::Stale => Ok(AcquireStatus::Stale),
            AcquireOutcome::TimedOut => Ok(AcquireStatus::TimedOut),
            AcquireOutcome::DeviceLost => Err(AcquireError::DeviceLost),
        }
    }

    /// Tears the live generation down for a new extent, or does nothing at
    /// all when the new extent has zero area (the caller retries on the next
    /// resize notification) or the surface still reports a zero-area extent.
    ///
    /// The caller must ensure the device has no outstanding GPU work
    /// referencing the old resources before calling this (a device-idle
    /// barrier); skipping that destroys in-use resources.
    pub fn recreate(
        &mut self,
        new_extent: Extent2D,
        caps: &SurfaceCapabilities,
        supported_modes: &Vec<PresentMode>,
    ) -> (r: RecreateStatus)
        requires
            old(self).wf(),
            old(self).state is Live,
        ensures
            final(self).wf(),
            new_extent.spec_is_zero() ==> r == RecreateStatus::Skipped && *final(self) == *old(
                self,
            ),
            !new_extent.spec_is_zero() ==> ({
                let new_desc = SwapchainDesc { extent: new_extent, ..old(self).desc };
                match spec_create_params(new_desc, *caps, supported_modes@) {
                    Err(_) => r == RecreateStatus::Skipped && *final(self) == *old(self),
                    Ok(params) => {
                        &&& r == RecreateStatus::TornDown
                        &&& final(self).state is Rebuilding
                        &&& final(self).desc == new_desc
                        &&& final(self).params == params
                        &&& final(self).raw == 0
                        &&& final(self).images@ == Seq::<u64>::empty()
                        &&& final(self).image_views@ == Seq::<u64>::empty()
                        &&& final(self).acquire_semaphores@ == Seq::<u64>::empty()
                        &&& final(self).finished_render_semaphores@ == Seq::<u64>::empty()
                        &&& final(self).generation == old(self).generation
                        &&& final(self).next_semaphore == old(self).next_semaphore
                    },
                }
            }),
    {
        if new_extent.is_zero() {
            return RecreateStatus::Skipped;
        }
        let new_desc = SwapchainDesc { extent: new_extent, ..self.desc };
        let params = match create_params(&new_desc, caps, supported_modes) {
            Err(_) => {
                return RecreateStatus::Skipped;
            },
            Ok(p) => p,
        };
        self.desc = new_desc;
        self.params = params;
        self.raw = 0;
        self.images = Vec::new();
        self.image_views = Vec::new();
        self.acquire_semaphores = Vec::new();
        self.finished_render_semaphores = Vec::new();
        self.state = SwapchainState::Rebuilding;
        RecreateStatus::TornDown
    }

    /// Installs the backend resources of the rebuilt generation, producing a
    /// new live generation with the ring cursor reset to 0.
    pub fn install_resources(&mut self, res: SwapchainResources)
        requires
            old(self).wf(),
            old(self).state is Rebuilding,
            res.spec_matches_count(old(self).params.image_count),
            old(self).generation < u64::MAX,
        ensures
            final(self).wf(),
            final(self).state is Live,
            final(self).desc == old(self).desc,
            final(self).params == old(self).params,
            final(self).raw == res.raw,
            final(self).images@ == res.images@,
            final(self).image_views@ == res.image_views@,
            final(self).acquire_semaphores@ == res.acquire_semaphores@,
            final(self).finished_render_semaphores@ == res.finished_render_semaphores@,
            final(self).next_semaphore == 0,
            final(self).generation == old(self).generation + 1,
    {
        self.raw = res.raw;
        self.images = res.images;
        self.image_views = res.image_views;
        self.acquire_semaphores = res.acquire_semaphores;
        self.finished_render_semaphores = res.finished_render_semaphores;
        self.next_semaphore = 0;
        self.generation = self.generation + 1;
        self.state = SwapchainState::Live;
    }

    /// Releases all views and the raw chain object, and nothing else: the
    /// images themselves are owned by the platform compositor and are never
    /// freed here, and the semaphore lists, parameters, cursor, and
    /// generation stay exactly as they were.
    pub fn destroy(&mut self)
        ensures
            final(self).wf(),
            final(self).state is Destroyed,
            final(self).image_views@ == Seq::<u64>::empty(),
            final(self).raw == 0,
            *final(self) == (Swapchain {
                image_views: final(self).image_views,
                raw: 0u64,
                state: SwapchainState::Destroyed,
                ..*old(self)
            }),
    {
        self.image_views = Vec::new();
        self.raw = 0;
        self.state = SwapchainState::Destroyed;
    }
}

/// Starting from any slot, `n` consecutive ring-cursor advances visit each
/// of the `n` semaphore-pair slots exactly once before repeating: the slots
/// taken at steps `i != j` differ, and every slot is taken at some step.
pub proof fn lemma_ring_visits_all_slots(start: int, n: int)
    requires
        0 <= start < n,
    ensures
        forall|i: int, j: int|
            0 <= i < j < n ==> #[trigger] ((start + i) % n) != #[trigger] ((start + j) % n),
        forall|s: int|
            0 <= s < n ==> 0 <= #[trigger] ((s - start + n) % n) < n && (start + (s - start + n)
                % n) % n == s,
{
    assert forall|i: int, j: int| 0 <= i < j < n implies #[trigger] ((start + i) % n)
        != #[trigger] ((start + j) % n) by {
        let a = start + i;
        let b = start + j;
        assert(a % n != b % n) by (nonlinear_arith)
            requires
                0 <= a,
                a < b,
                b - a < n,
                0 < n,
        ;
    }
    assert forall|s: int| 0 <= s < n implies 0 <= #[trigger] ((s - start + n) % n) < n && (start
        + (s - start + n) % n) % n == s by {
        let i = (s - start + n) % n;
        assert(0 <= i < n && (start + i) % n == s) by (nonlinear_arith)
            requires
                0 <= start < n,
                0 <= s < n,
                i == (s - start + n) % n,
        ;
    }
}

} // verus!
