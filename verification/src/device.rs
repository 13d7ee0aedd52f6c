//! Device selection: scoring the physical devices that were enumerated,
//! picking the best one that can serve the renderer, and resolving the
//! queue families for graphics and transfer work.
//!
//! The renderer needs the geometry-stage feature and a device that can
//! present to the target surface. Scores grow with suitability: one
//! direction only, for every consumer. The class of a device decides first,
//! its largest image dimension between devices of one class.

use vstd::prelude::*;

verus! {

/// What kind of hardware a physical device is.
#[derive(Clone, Copy, Debug, PartialEq, Eq, Structural)]
pub enum DeviceKind {
    IntegratedGpu,
    DiscreteGpu,
    VirtualGpu,
    Cpu,
    Other,
}

/// One queue family as a device reports it.
#[derive(Clone, Copy, Debug, PartialEq, Eq, Structural)]
pub struct QueueFamily {
    pub queue_count: u32,
    pub graphics: bool,
    pub transfer: bool,
}

/// The capabilities of one physical device that selection reads.
#[derive(Clone, Copy, Debug, PartialEq, Eq, Structural)]
pub struct DeviceProfile {
    /// The geometry-stage feature is supported.
    pub geometry_shader: bool,
    /// The device can present to the target surface.
    pub presentation: bool,
    pub kind: DeviceKind,
    pub max_image_dimension: u32,
}

/// Why startup cannot go on. None of these is recoverable.
#[derive(Clone, Copy, Debug, PartialEq, Eq, Structural)]
pub enum SelectionError {
    /// No candidate has both the geometry-stage feature and presentation
    /// support.
    NoSuitableDevice,
    /// No queue family with at least one queue supports graphics.
    NoGraphicsQueue,
    /// No queue family with at least one queue supports transfer.
    NoTransferQueue,
}

/// What a discrete GPU is worth over any other kind: more than any image
/// dimension, so that the dimension decides between devices of one class
/// only.
pub const DISCRETE_BONUS: u64 = 0x1_0000_0000;

/// The score of a device: zero without the geometry-stage feature, else the
/// largest image dimension, raised by `DISCRETE_BONUS` for a discrete GPU.
/// A discrete GPU with the feature scores above every device of another
/// kind, whatever their dimensions.
pub open spec fn suitability(device: DeviceProfile) -> nat {
    if !device.geometry_shader {
        0
    } else if device.kind == DeviceKind::DiscreteGpu {
        (DISCRETE_BONUS + device.max_image_dimension) as nat
    } else {
        device.max_image_dimension as nat
    }
}

/// A discrete GPU that has the geometry-stage feature.
pub open spec fn featured_discrete(device: DeviceProfile) -> bool {
    device.geometry_shader && device.kind == DeviceKind::DiscreteGpu
}

/// A device that the renderer can run on.
pub open spec fn qualifies(device: DeviceProfile) -> bool {
    device.geometry_shader && device.presentation
}

/// `index` is the qualifying candidate with the highest score, the earliest
/// of them where several share it.
pub open spec fn is_best(candidates: Seq<DeviceProfile>, index: int) -> bool {
    &&& 0 <= index < candidates.len()
    &&& qualifies(candidates[index])
    &&& forall|j: int|
        0 <= j < candidates.len() && qualifies(#[trigger] candidates[j]) ==> {
            ||| suitability(candidates[j]) < suitability(candidates[index])
            ||| (suitability(candidates[j]) == suitability(candidates[index]) && index <= j)
        }
}

/// Scores one device; higher is better.
pub fn rate_device_suitability(device: &DeviceProfile) -> (score: u64)
    ensures
        score == suitability(*device),
{
    if !device.geometry_shader {
        return 0;
    }
    let mut score: u64 = 0;
    if device.kind == DeviceKind::DiscreteGpu {
        score = score + DISCRETE_BONUS;
    }
    score + device.max_image_dimension as u64
}

/// The class decides first and the dimension second: a discrete GPU with
/// the feature scores above every device that is not one, a device without
/// the feature scores lowest, and of two devices of one class with the
/// feature the one with the larger dimension scores strictly higher.
pub proof fn class_outweighs_dimension(a: DeviceProfile, b: DeviceProfile)
    ensures
        featured_discrete(a) && !featured_discrete(b) ==> suitability(a) > suitability(b),
        !a.geometry_shader ==> suitability(a) <= suitability(b),
        a.geometry_shader && b.geometry_shader && (a.kind == DeviceKind::DiscreteGpu) == (b.kind
            == DeviceKind::DiscreteGpu) && a.max_image_dimension > b.max_image_dimension
            ==> suitability(a) > suitability(b),
        suitability(a) < 2 * DISCRETE_BONUS,
{
}

/// The largest dimension that a rank tells from larger ones. A rank has 32
/// bits, one of which tells the classes apart; dimensions from here on share
/// a rank within their class.
pub const RANKED_DIMENSIONS: u32 = 0x7FFF_FFFE;

/// The dimension as far as a rank tells it.
pub open spec fn ranked_dimension(device: DeviceProfile) -> nat {
    if device.max_image_dimension < RANKED_DIMENSIONS {
        device.max_image_dimension as nat
    } else {
        RANKED_DIMENSIONS as nat
    }
}

/// The same ranking for a consumer that picks the smallest value. A device
/// without the geometry-stage feature has the largest rank of all. The
/// ranks of the devices with the feature count down from one below that:
/// first by the dimension, and for a discrete GPU by half the range of ranks
/// besides, so that every discrete GPU comes before every other device.
pub open spec fn priority(device: DeviceProfile) -> nat {
    if !device.geometry_shader {
        u32::MAX as nat
    } else if device.kind == DeviceKind::DiscreteGpu {
        (u32::MAX - 1 - 0x8000_0000 - ranked_dimension(device)) as nat
    } else {
        (u32::MAX - 1 - ranked_dimension(device)) as nat
    }
}

/// Ranks one device for a consumer that prefers the smallest value.
pub fn device_priority_fn(device: &DeviceProfile) -> (rank: u32)
    ensures
        rank == priority(*device),
{
    if !device.geometry_shader {
        return u32::MAX;
    }
    let dimension = if device.max_image_dimension < RANKED_DIMENSIONS {
        device.max_image_dimension
    } else {
        RANKED_DIMENSIONS
    };
    if device.kind == DeviceKind::DiscreteGpu {
        u32::MAX - 1 - 0x8000_0000 - dimension
    } else {
        u32::MAX - 1 - dimension
    }
}

/// Whether a device may be considered at all.
pub fn device_filter_fn(device: &DeviceProfile) -> (keep: bool)
    ensures
        keep == qualifies(*device),
{
    device.geometry_shader && device.presentation
}

/// Of two devices of one class with the feature.
pub open spec fn of_one_class(a: DeviceProfile, b: DeviceProfile) -> bool {
    &&& a.geometry_shader
    &&& b.geometry_shader
    &&& (a.kind == DeviceKind::DiscreteGpu) == (b.kind == DeviceKind::DiscreteGpu)
}

/// The ranks order the devices as the scores do, the smaller rank for the
/// better score:
/// - a device with the feature ranks strictly before every device without;
/// - a discrete GPU with the feature ranks strictly before every device that
///   is not one;
/// - of two devices of one class, the one with the larger dimension ranks
///   strictly before the other, as long as the smaller dimension is below
///   `RANKED_DIMENSIONS`, and never after it;
/// - a better score never gives a worse rank.
/// Two devices share a rank exactly when both lack the feature, or when they
/// are of one class and their dimensions are equal or both at least
/// `RANKED_DIMENSIONS`.
pub proof fn priority_reverses_suitability(a: DeviceProfile, b: DeviceProfile)
    ensures
        a.geometry_shader && !b.geometry_shader ==> priority(a) < priority(b),
        featured_discrete(a) && !featured_discrete(b) ==> priority(a) < priority(b),
        of_one_class(a, b) && a.max_image_dimension > b.max_image_dimension
            && b.max_image_dimension < RANKED_DIMENSIONS ==> priority(a) < priority(b),
        of_one_class(a, b) && a.max_image_dimension >= b.max_image_dimension ==> priority(a)
            <= priority(b),
        suitability(a) < suitability(b) ==> priority(a) >= priority(b),
        priority(a) == priority(b) <==> {
            ||| !a.geometry_shader && !b.geometry_shader
            ||| of_one_class(a, b) && ranked_dimension(a) == ranked_dimension(b)
        },
        !a.geometry_shader <==> priority(a) == u32::MAX,
        priority(a) <= u32::MAX,
{
}

/// Where a discrete GPU qualifies, the device picked is a discrete GPU.
pub proof fn best_is_discrete_where_one_qualifies(
    candidates: Seq<DeviceProfile>,
    index: int,
    discrete: int,
)
    requires
        is_best(candidates, index),
        0 <= discrete < candidates.len(),
        qualifies(candidates[discrete]),
        candidates[discrete].kind == DeviceKind::DiscreteGpu,
    ensures
        candidates[index].kind == DeviceKind::DiscreteGpu,
{
    class_outweighs_dimension(candidates[discrete], candidates[index]);
}

/// Picks the device to render with: the position in `candidates` of the
/// qualifying device with the highest score, first seen first. Fails exactly
/// when no candidate qualifies.
pub fn get_physical_device(candidates: &Vec<DeviceProfile>) -> (choice: Result<
    usize,
    SelectionError,
>)
    ensures
        match choice {
            Ok(index) => is_best(candidates@, index as int),
            Err(error) => {
                &&& error == SelectionError::NoSuitableDevice
                &&& forall|j: int| 0 <= j < candidates@.len() ==> !qualifies(candidates@[j])
            },
        },
{
    let mut best: Option<usize> = None;
    let mut best_score: u64 = 0;
    let mut i: usize = 0;
    while i < candidates.len()
        invariant
            0 <= i <= candidates@.len(),
            match best {
                Some(index) => {
                    &&& index < i
                    &&& best_score == suitability(candidates@[index as int])
                    &&& is_best(candidates@.take(i as int), index as int)
                },
                None => forall|j: int| 0 <= j < i ==> !qualifies(candidates@[j]),
            },
        decreases candidates@.len() - i,
    {
        let device = &candidates[i];
        if device_filter_fn(device) {
            let score = rate_device_suitability(device);
            let replace = match best {
                Some(_) => score > best_score,
                None => true,
            };
            if replace {
                best = Some(i);
                best_score = score;
            }
        }
        proof {
            let before = candidates@.take(i as int);
            let after = candidates@.take(i as int + 1);
            assert forall|j: int| 0 <= j < i implies after[j] == before[j] by {}
            assert(after[i as int] == candidates@[i as int]);
        }
        i = i + 1;
    }
    proof {
        assert(candidates@.take(i as int) =~= candidates@);
    }
    match best {
        Some(index) => Ok(index),
        None => Err(SelectionError::NoSuitableDevice),
    }
}

/// A family that graphics work can be submitted to.
pub open spec fn graphics_capable(family: QueueFamily) -> bool {
    family.queue_count > 0 && family.graphics
}

/// A family that transfer work can be submitted to.
pub open spec fn transfer_capable(family: QueueFamily) -> bool {
    family.queue_count > 0 && family.transfer
}

/// A transfer family that is not also the graphics family's kind: work on it
/// can overlap with drawing.
pub open spec fn transfer_only(family: QueueFamily) -> bool {
    transfer_capable(family) && !family.graphics
}

/// `index` is the last family that supports graphics.
pub open spec fn is_graphics_choice(families: Seq<QueueFamily>, index: int) -> bool {
    &&& 0 <= index < families.len()
    &&& graphics_capable(families[index])
    &&& forall|j: int| index < j < families.len() ==> !graphics_capable(#[trigger] families[j])
}

/// `index` is the last family that supports transfer and not graphics, or,
/// where there is none, the first one that supports transfer.
pub open spec fn is_transfer_choice(families: Seq<QueueFamily>, index: int) -> bool {
    &&& 0 <= index < families.len()
    &&& transfer_capable(families[index])
    &&& if transfer_only(families[index]) {
        forall|j: int| index < j < families.len() ==> !transfer_only(#[trigger] families[j])
    } else {
        &&& forall|j: int| 0 <= j < families.len() ==> !transfer_only(#[trigger] families[j])
        &&& forall|j: int| 0 <= j < index ==> !transfer_capable(#[trigger] families[j])
    }
}

/// Resolves the graphics and the transfer queue family, in that order.
///
/// Fails with `NoGraphicsQueue` exactly when no family supports graphics,
/// and with `NoTransferQueue` exactly when one does but none supports
/// transfer.
pub fn get_queue_indices(families: &Vec<QueueFamily>) -> (indices: Result<
    (u32, u32),
    SelectionError,
>)
    requires
        families@.len() <= u32::MAX,
    ensures
        match indices {
            Ok((graphics, transfer)) => {
                &&& is_graphics_choice(families@, graphics as int)
                &&& is_transfer_choice(families@, transfer as int)
            },
            Err(SelectionError::NoGraphicsQueue) => forall|j: int|
                0 <= j < families@.len() ==> !graphics_capable(families@[j]),
            Err(SelectionError::NoTransferQueue) => {
                &&& exists|j: int| 0 <= j < families@.len() && graphics_capable(families@[j])
                &&& forall|j: int| 0 <= j < families@.len() ==> !transfer_capable(families@[j])
            },
            Err(SelectionError::NoSuitableDevice) => false,
        },
{
    let mut found_graphics: Option<u32> = None;
    let mut found_transfer: Option<u32> = None;
    let mut i: usize = 0;
    while i < families.len()
        invariant
            0 <= i <= families@.len(),
            families@.len() <= u32::MAX,
            match found_graphics {
                Some(index) => index < i && is_graphics_choice(
                    families@.take(i as int),
                    index as int,
                ),
                None => forall|j: int| 0 <= j < i ==> !graphics_capable(families@[j]),
            },
            match found_transfer {
                Some(index) => index < i && is_transfer_choice(
                    families@.take(i as int),
                    index as int,
                ),
                None => forall|j: int| 0 <= j < i ==> !transfer_capable(families@[j]),
            },
        decreases families@.len() - i,
    {
        let family = &families[i];
        let ghost before = families@.take(i as int);
        let ghost after = families@.take(i as int + 1);
        proof {
            assert forall|j: int| 0 <= j < i implies after[j] == before[j] by {}
            assert(after[i as int] == families@[i as int]);
        }
        if family.queue_count > 0 && family.graphics {
            found_graphics = Some(i as u32);
        }
        if family.queue_count > 0 && family.transfer && (found_transfer.is_none()
            || !family.graphics) {
            found_transfer = Some(i as u32);
        }
        i = i + 1;
    }
    proof {
        assert(families@.take(i as int) =~= families@);
    }
    match (found_graphics, found_transfer) {
        (Some(graphics), Some(transfer)) => Ok((graphics, transfer)),
        (None, _) => Err(SelectionError::NoGraphicsQueue),
        (Some(graphics), None) => {
            proof {
                assert(graphics_capable(families@[graphics as int]));
            }
            Err(SelectionError::NoTransferQueue)
        },
    }
}

/// What a logical device is opened with.
#[derive(Debug, PartialEq, Eq)]
pub struct DeviceCreateInfo {
    /// The geometry-stage feature is enabled.
    pub geometry_shader: bool,
    /// The swapchain extension is enabled.
    pub khr_swapchain: bool,
    /// The queue families to open one queue of each, no family twice.
    pub queue_families: Vec<u32>,
    /// Where in `queue_families` the graphics queue's family stands.
    pub graphics_queue: usize,
    /// Where in `queue_families` the transfer queue's family stands.
    pub transfer_queue: usize,
}

/// The families to open for a graphics and a transfer family: both, or the
/// one family that serves both.
pub open spec fn families_to_open(graphics: u32, transfer: u32) -> Seq<u32> {
    if graphics == transfer {
        seq![graphics]
    } else {
        seq![graphics, transfer]
    }
}

/// Works out what to open the logical device with: the geometry-stage
/// feature, the swapchain extension, and one queue of the graphics family and
/// of the transfer family. Where one family serves both, it is named once and
/// its queue is shared.
///
/// Fails as `get_queue_indices` does.
pub fn get_device(families: &Vec<QueueFamily>) -> (info: Result<DeviceCreateInfo, SelectionError>)
    requires
        families@.len() <= u32::MAX,
    ensures
        match info {
            Ok(info) => {
                &&& info.geometry_shader
                &&& info.khr_swapchain
                &&& info.graphics_queue < info.queue_families@.len()
                &&& info.transfer_queue < info.queue_families@.len()
                &&& is_graphics_choice(
                    families@,
                    info.queue_families@[info.graphics_queue as int] as int,
                )
                &&& is_transfer_choice(
                    families@,
                    info.queue_families@[info.transfer_queue as int] as int,
                )
                &&& info.queue_families@ == families_to_open(
                    info.queue_families@[info.graphics_queue as int],
                    info.queue_families@[info.transfer_queue as int],
                )
                &&& info.graphics_queue == 0
            },
            Err(SelectionError::NoGraphicsQueue) => forall|j: int|
                0 <= j < families@.len() ==> !graphics_capable(families@[j]),
            Err(SelectionError::NoTransferQueue) => {
                &&& exists|j: int| 0 <= j < families@.len() && graphics_capable(families@[j])
                &&& forall|j: int| 0 <= j < families@.len() ==> !transfer_capable(families@[j])
            },
            Err(SelectionError::NoSuitableDevice) => false,
        },
{
    match get_queue_indices(families) {
        Ok((graphics, transfer)) => {
            let mut queue_families: Vec<u32> = Vec::new();
            queue_families.push(graphics);
            let transfer_queue: usize = if graphics == transfer {
                0
            } else {
                queue_families.push(transfer);
                1
            };
            proof {
                assert(queue_families@ =~= families_to_open(graphics, transfer));
            }
            Ok(
                DeviceCreateInfo {
                    geometry_shader: true,
                    khr_swapchain: true,
                    queue_families,
                    graphics_queue: 0,
                    transfer_queue,
                },
            )
        },
        Err(error) => Err(error),
    }
}

/// No family is named twice among the families to open.
pub proof fn opened_families_are_distinct(graphics: u32, transfer: u32)
    ensures
        forall|i: int, j: int|
            0 <= i < j < families_to_open(graphics, transfer).len() ==> families_to_open(
                graphics,
                transfer,
            )[i] != families_to_open(graphics, transfer)[j],
{
}

} // verus!
