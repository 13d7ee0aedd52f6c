//! The swapchain: how many images to ask for, the parameters it is created
//! with, and what a recreation keeps.

use crate::extent::Extent;
use vstd::prelude::*;

verus! {

/// The number of images that gives smooth frame pacing.
pub const PREFERRED_IMAGE_COUNT: u32 = 3;

/// The image counts that a surface supports. Without a maximum the surface
/// has no cap.
#[derive(Clone, Copy, Debug, PartialEq, Eq, Structural)]
pub struct SurfaceCapabilities {
    pub min_image_count: u32,
    pub max_image_count: Option<u32>,
}

/// How presented images reach the display.
#[derive(Clone, Copy, Debug, PartialEq, Eq, Structural)]
pub enum PresentMode {
    Immediate,
    Mailbox,
    Fifo,
    FifoRelaxed,
}

/// The pixel formats that the renderer names.
#[derive(Clone, Copy, Debug, PartialEq, Eq, Structural)]
pub enum Format {
    B8G8R8A8Unorm,
    B8G8R8A8Srgb,
    R32G32B32A32Sfloat,
}

/// What a swapchain is created with.
#[derive(Clone, Copy, Debug, PartialEq, Eq, Structural)]
pub struct SwapchainCreateInfo {
    pub min_image_count: u32,
    pub image_format: Format,
    pub image_extent: Extent,
    /// The images are rendered into as colour attachments.
    pub color_attachment: bool,
    pub present_mode: PresentMode,
}

/// One presentable image: the handle it is known by and its size.
#[derive(Clone, Copy, Debug, PartialEq, Eq, Structural)]
pub struct SwapchainImage {
    pub handle: u64,
    pub extent: Extent,
}

/// What acquiring the next image reported.
#[derive(Clone, Copy, Debug, PartialEq, Eq, Structural)]
pub enum AcquireOutcome {
    /// The image at this index can be drawn into.
    Ready(u32),
    /// The image at this index can be drawn into and presented, but the
    /// swapchain no longer matches the surface exactly.
    Suboptimal(u32),
    /// The swapchain no longer matches the surface: nothing can be drawn.
    OutOfDate,
    /// Any other failure.
    Failed,
}

/// What submitting and presenting a frame reported.
#[derive(Clone, Copy, Debug, PartialEq, Eq, Structural)]
pub enum PresentOutcome {
    Presented,
    /// The swapchain no longer matches the surface.
    OutOfDate,
    /// Any other failure.
    Failed,
}

/// The image count to request: the preferred count, raised to the surface's
/// minimum and then lowered to its maximum, where it has one.
pub open spec fn requested_image_count(capabilities: SurfaceCapabilities) -> u32 {
    let wanted = if capabilities.min_image_count > PREFERRED_IMAGE_COUNT {
        capabilities.min_image_count
    } else {
        PREFERRED_IMAGE_COUNT
    };
    match capabilities.max_image_count {
        Some(max) => if max < wanted {
            max
        } else {
            wanted
        },
        None => wanted,
    }
}

/// Computes the image count to request from a surface.
pub fn image_count(capabilities: &SurfaceCapabilities) -> (count: u32)
    ensures
        count == requested_image_count(*capabilities),
{
    let wanted = if capabilities.min_image_count > PREFERRED_IMAGE_COUNT {
        capabilities.min_image_count
    } else {
        PREFERRED_IMAGE_COUNT
    };
    match capabilities.max_image_count {
        Some(max) => if max < wanted {
            max
        } else {
            wanted
        },
        None => wanted,
    }
}

/// A surface whose minimum does not exceed its maximum.
pub open spec fn consistent(capabilities: SurfaceCapabilities) -> bool {
    match capabilities.max_image_count {
        Some(max) => capabilities.min_image_count <= max,
        None => true,
    }
}

/// The requested count is never below the surface's minimum and never above
/// its maximum.
pub proof fn image_count_within_surface_limits(capabilities: SurfaceCapabilities)
    requires
        consistent(capabilities),
    ensures
        capabilities.min_image_count <= requested_image_count(capabilities),
        capabilities.max_image_count matches Some(max) ==> requested_image_count(capabilities)
            <= max,
{
}

/// On a surface that allows the preferred count or has no cap, the requested
/// count is at least the preferred count and at least the surface's minimum,
/// and it is exactly the larger of the two.
pub proof fn image_count_reaches_preferred(capabilities: SurfaceCapabilities)
    requires
        consistent(capabilities),
        capabilities.max_image_count matches Some(max) ==> PREFERRED_IMAGE_COUNT <= max,
    ensures
        PREFERRED_IMAGE_COUNT <= requested_image_count(capabilities),
        capabilities.min_image_count <= requested_image_count(capabilities),
        requested_image_count(capabilities) == PREFERRED_IMAGE_COUNT || requested_image_count(
            capabilities,
        ) == capabilities.min_image_count,
        capabilities.max_image_count matches Some(max) ==> requested_image_count(capabilities)
            <= max,
{
}

/// The parameters of the first swapchain on a surface: the computed image
/// count, colour-attachment images of the given format and size, presented
/// without waiting for the display.
pub fn create_swapchain(
    capabilities: &SurfaceCapabilities,
    image_format: Format,
    image_extent: Extent,
) -> (info: SwapchainCreateInfo)
    ensures
        info == (SwapchainCreateInfo {
            min_image_count: requested_image_count(*capabilities),
            image_format,
            image_extent,
            color_attachment: true,
            present_mode: PresentMode::Immediate,
        }),
{
    SwapchainCreateInfo {
        min_image_count: image_count(capabilities),
        image_format,
        image_extent,
        color_attachment: true,
        present_mode: PresentMode::Immediate,
    }
}

/// The parameters of a swapchain that replaces `current` on a surface of
/// another size: everything is kept but the image extent.
pub fn recreate(current: &SwapchainCreateInfo, image_extent: Extent) -> (info: SwapchainCreateInfo)
    ensures
        info == (SwapchainCreateInfo { image_extent, ..*current }),
{
    SwapchainCreateInfo {
        min_image_count: current.min_image_count,
        image_format: current.image_format,
        image_extent,
        color_attachment: current.color_attachment,
        present_mode: current.present_mode,
    }
}

/// Recreating twice is recreating once with the later extent, and
/// recreating with the extent already held changes nothing.
pub proof fn recreate_keeps_all_but_extent(
    current: SwapchainCreateInfo,
    first: Extent,
    second: Extent,
)
    ensures
        (SwapchainCreateInfo {
            image_extent: second,
            ..(SwapchainCreateInfo { image_extent: first, ..current })
        }) == (SwapchainCreateInfo { image_extent: second, ..current }),
        (SwapchainCreateInfo { image_extent: current.image_extent, ..current }) == current,
{
}

/// Every image has the size `extent`.
pub open spec fn all_of_extent(images: Seq<SwapchainImage>, extent: Extent) -> bool {
    forall|i: int| 0 <= i < images.len() ==> (#[trigger] images[i]).extent == extent
}

/// Whether a set of images is a usable swapchain of the size `extent`: at
/// least one image, each of that size.
pub fn images_match(images: &Vec<SwapchainImage>, extent: Extent) -> (matching: bool)
    ensures
        matching == (images@.len() > 0 && all_of_extent(images@, extent)),
{
    if images.len() == 0 {
        return false;
    }
    let mut i: usize = 0;
    while i < images.len()
        invariant
            0 <= i <= images@.len(),
            all_of_extent(images@.take(i as int), extent),
        decreases images@.len() - i,
    {
        if images[i].extent != extent {
            return false;
        }
        proof {
            let before = images@.take(i as int);
            let after = images@.take(i as int + 1);
            assert forall|j: int| 0 <= j < after.len() implies (#[trigger] after[j]).extent
                == extent by {
                if j < i {
                    assert(after[j] == before[j]);
                }
            }
        }
        i = i + 1;
    }
    proof {
        assert(images@.take(i as int) =~= images@);
    }
    true
}

} // verus!
