//! Surface capability negotiation: choosing a present mode and an extent
//! for a new chain of presentable images.

use vstd::prelude::*;

verus! {

/// Sentinel width/height reported by a surface whose extent must be taken
/// from the window instead.
pub const EXTENT_MATCH_WINDOW: u32 = 0xffff_ffff;

/// A two-dimensional extent in pixels.
#[derive(Clone, Copy, Debug, PartialEq, Eq, Structural)]
pub struct Extent2D {
    pub width: u32,
    pub height: u32,
}

impl Extent2D {
    /// An extent is degenerate when it has zero area.
    pub open spec fn spec_is_zero(self) -> bool {
        self.width == 0 || self.height == 0
    }

    /// Returns whether the extent has zero area.
    pub fn is_zero(&self) -> (r: bool)
        ensures
            r == self.spec_is_zero(),
    {
        self.width == 0 || self.height == 0
    }
}

/// Policy governing image hand-off cadence.
#[derive(Clone, Copy, Debug, PartialEq, Eq, Structural)]
pub enum PresentMode {
    Immediate,
    Mailbox,
    Fifo,
    FifoRelaxed,
}

/// A surface pixel format together with its color space, as plain codes.
#[derive(Clone, Copy, Debug, PartialEq, Eq, Structural)]
pub struct SurfaceFormat {
    pub format: u32,
    pub color_space: u32,
}

/// What the surface reports about itself; queried fresh on every creation
/// or recreation and discarded immediately after use.
#[derive(Clone, Copy, Debug, PartialEq, Eq, Structural)]
pub struct SurfaceCapabilities {
    /// Fewest presentable images a chain may hold.
    pub min_image_count: u32,
    /// Most presentable images a chain may hold; 0 means unbounded.
    pub max_image_count: u32,
    /// The surface's current extent, or `EXTENT_MATCH_WINDOW` in `width`
    /// when the chain's extent must be taken from the window.
    pub current_extent: Extent2D,
    /// Whether the identity transform is among the supported transforms.
    pub supports_identity_transform: bool,
    /// The transform currently applied to the surface, as a plain bit code.
    pub current_transform: u32,
}

impl SurfaceCapabilities {
    /// A capability report is coherent when the image-count range is
    /// non-empty (a zero maximum meaning unbounded).
    pub open spec fn spec_valid(self) -> bool {
        self.min_image_count >= 1 && (self.max_image_count == 0
            || self.min_image_count <= self.max_image_count)
    }
}

/// The ordered preference list of present modes for a vsync choice:
/// vsync-on prefers a relaxed FIFO mode and then strict FIFO; vsync-off
/// prefers mailbox and then immediate.
pub open spec fn preference_list(vsync: bool) -> Seq<PresentMode> {
    if vsync {
        seq![PresentMode::FifoRelaxed, PresentMode::Fifo]
    } else {
        seq![PresentMode::Mailbox, PresentMode::Immediate]
    }
}

/// The chosen present mode: the first entry of the preference list present
/// in `supported`, or strict FIFO when none is (strict FIFO is guaranteed
/// available on any compliant backend).
pub open spec fn spec_choose_present_mode(vsync: bool, supported: Seq<PresentMode>) -> PresentMode {
    let prefs = preference_list(vsync);
    if supported.contains(prefs[0]) {
        prefs[0]
    } else if supported.contains(prefs[1]) {
        prefs[1]
    } else {
        PresentMode::Fifo
    }
}

/// Returns whether `supported` lists the mode `m`.
fn supports_mode(supported: &Vec<PresentMode>, m: PresentMode) -> (r: bool)
    ensures
        r == supported@.contains(m),
{
    let mut i: usize = 0;
    while i < supported.len()
        invariant
            i <= supported.len(),
            forall|j: int| 0 <= j < i ==> supported@[j] != m,
        decreases supported.len() - i,
    {
        if supported[i] == m {
            assert(supported@.contains(m));
            return true;
        }
        i += 1;
    }
    false
}

/// Picks the present mode for a new chain from the supported set.
pub fn choose_present_mode(vsync: bool, supported: &Vec<PresentMode>) -> (mode: PresentMode)
    ensures
        mode == spec_choose_present_mode(vsync, supported@),
{
    let first = if vsync {
        PresentMode::FifoRelaxed
    } else {
        PresentMode::Mailbox
    };
    let second = if vsync {
        PresentMode::Fifo
    } else {
        PresentMode::Immediate
    };
    if supports_mode(supported, first) {
        first
    } else if supports_mode(supported, second) {
        second
    } else {
        PresentMode::Fifo
    }
}

/// The chosen mode is always a member of the preference list intersected
/// with the supported set, or strict FIFO when that intersection is empty.
pub proof fn lemma_present_mode_choice(vsync: bool, supported: Seq<PresentMode>)
    ensures
        ({
            let mode = spec_choose_present_mode(vsync, supported);
            let prefs = preference_list(vsync);
            (prefs.contains(mode) && supported.contains(mode)) || ((forall|j: int|
                0 <= j < prefs.len() ==> !supported.contains(prefs[j])) && mode
                == PresentMode::Fifo)
        }),
{
    let prefs = preference_list(vsync);
    assert(prefs.contains(prefs[0]));
    assert(prefs.contains(prefs[1]));
    if !supported.contains(prefs[0]) && !supported.contains(prefs[1]) {
        assert forall|j: int| 0 <= j < prefs.len() implies !supported.contains(prefs[j]) by {
            if j == 0 {
            } else {
                assert(j == 1);
            }
        }
    }
}

/// The extent a new chain must use: the window's extent when the surface
/// carries the match-window sentinel, the surface's current extent
/// otherwise. `None` when the chosen extent has zero area, in which case
/// creation must be deferred until the window reports a non-zero size.
pub open spec fn spec_choose_extent(caps: SurfaceCapabilities, window_extent: Extent2D) -> Option<
    Extent2D,
> {
    let chosen = if caps.current_extent.width == EXTENT_MATCH_WINDOW {
        window_extent
    } else {
        caps.current_extent
    };
    if chosen.spec_is_zero() {
        None
    } else {
        Some(chosen)
    }
}

/// Picks the extent for a new chain, failing on a zero-area result.
pub fn choose_extent(caps: &SurfaceCapabilities, window_extent: Extent2D) -> (r: Option<Extent2D>)
    ensures
        r == spec_choose_extent(*caps, window_extent),
{
    let chosen = if caps.current_extent.width == EXTENT_MATCH_WINDOW {
        window_extent
    } else {
        caps.current_extent
    };
    if chosen.is_zero() {
        None
    } else {
        Some(chosen)
    }
}

} // verus!
