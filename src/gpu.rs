//! Choices made from what the GPU driver reports: which queue carries the
//! importer's copies, and which memory type an import uses.
use vstd::prelude::*;
use vstd::std_specs::bits::u32_trailing_zeros;

verus! {

/// Queue capability bits, as the Vulkan specification numbers them.
pub const QUEUE_GRAPHICS_BIT: u32 = 0x1;
pub const QUEUE_COMPUTE_BIT: u32 = 0x2;
pub const QUEUE_TRANSFER_BIT: u32 = 0x4;

/// One queue family: its capability bits and how many queues it has.
#[derive(Clone, Copy, Debug, PartialEq, Eq, Structural)]
pub struct QueueFamily {
    pub flags: u32,
    pub queue_count: u32,
}

/// The queue the importer submits its copies to, and whether it is separate
/// from the engine's own graphics queue (family 0, queue 0).
#[derive(Clone, Copy, Debug, PartialEq, Eq, Structural)]
pub struct QueueChoice {
    pub family: u32,
    pub index: u32,
    pub separate: bool,
}

/// Whether `flags` holds every bit of `bit`.
pub open spec fn has_flag(flags: u32, bit: u32) -> bool {
    flags & bit == bit
}

/// A family that can copy without being the graphics family.
pub open spec fn is_transfer_family(f: QueueFamily) -> bool {
    has_flag(f.flags, QUEUE_TRANSFER_BIT) && !has_flag(f.flags, QUEUE_GRAPHICS_BIT) && f.queue_count > 0
}

pub open spec fn shared_queue() -> QueueChoice {
    QueueChoice { family: 0, index: 0, separate: false }
}

/// The first transfer family at or after index `i`.
pub open spec fn first_transfer_from(families: Seq<QueueFamily>, i: int) -> Option<int>
    decreases families.len() - i,
{
    if i < 0 || i >= families.len() {
        None
    } else if is_transfer_family(families[i]) {
        Some(i)
    } else {
        first_transfer_from(families, i + 1)
    }
}

/// The queue choice, in order of preference: a second queue of the graphics
/// family; else the first transfer family that is not a graphics family;
/// else the engine's graphics queue, shared.
pub open spec fn queue_choice(families: Seq<QueueFamily>) -> QueueChoice {
    if families.len() > 0 && families[0].queue_count > 1 {
        QueueChoice { family: 0, index: 1, separate: true }
    } else {
        match first_transfer_from(families, 0) {
            Some(i) => QueueChoice { family: i as u32, index: 0, separate: true },
            None => shared_queue(),
        }
    }
}

/// Chooses the queue for the importer's copies from the device's queue
/// families (empty when the physical device is unknown).
pub fn choose_copy_queue(families: &[QueueFamily]) -> (r: QueueChoice)
    requires
        families@.len() <= u32::MAX,
    ensures
        r == queue_choice(families@),
{
    let n = families.len();
    if n > 0 && families[0].queue_count > 1 {
        return QueueChoice { family: 0, index: 1, separate: true };
    }
    let mut i: usize = 0;
    while i < n
        invariant
            n == families@.len(),
            n <= u32::MAX,
            i <= n,
            first_transfer_from(families@, 0) == first_transfer_from(families@, i as int),
            !(n > 0 && families@[0].queue_count > 1),
        decreases n - i,
    {
        let f = families[i];
        if f.flags & QUEUE_TRANSFER_BIT == QUEUE_TRANSFER_BIT && f.flags & QUEUE_GRAPHICS_BIT
            != QUEUE_GRAPHICS_BIT && f.queue_count > 0 {
            assert(is_transfer_family(families@[i as int]));
            return QueueChoice { family: i as u32, index: 0, separate: true };
        }
        i = i + 1;
    }
    assert(first_transfer_from(families@, n as int) is None);
    shared_queue_choice()
}

fn shared_queue_choice() -> (r: QueueChoice)
    ensures
        r == shared_queue(),
{
    QueueChoice { family: 0, index: 0, separate: false }
}

/// The memory type an import uses: the lowest one that `type_bits`
/// allows, or none when it allows none.
pub fn find_memory_type_index(type_bits: u32) -> (r: Option<u32>)
    ensures
        type_bits == 0 ==> r is None,
        type_bits != 0 ==> r == Some(u32_trailing_zeros(type_bits)),
{
    if type_bits == 0 {
        None
    } else {
        Some(type_bits.trailing_zeros())
    }
}

/// A display adapter as the system lists it: its locally unique
/// identifier and its PCI vendor and device identifiers.
#[derive(Clone, Copy, Debug, PartialEq, Eq, Structural)]
pub struct AdapterInfo {
    pub luid_high: i32,
    pub luid_low: u32,
    pub vendor_id: u32,
    pub device_id: u32,
}

pub open spec fn luid_matches(a: AdapterInfo, luid_high: i32, luid_low: u32) -> bool {
    a.luid_high == luid_high && a.luid_low == luid_low
}

/// The first adapter at or after index `i` with the given identifier.
pub open spec fn first_adapter_from(adapters: Seq<AdapterInfo>, luid_high: i32, luid_low: u32, i: int) -> Option<int>
    decreases adapters.len() - i,
{
    if i < 0 || i >= adapters.len() {
        None
    } else if luid_matches(adapters[i], luid_high, luid_low) {
        Some(i)
    } else {
        first_adapter_from(adapters, luid_high, luid_low, i + 1)
    }
}

/// The vendor and device identifiers of the adapter the engine's device
/// runs on, found by its locally unique identifier among the system's
/// adapters (the first match), so that the browser can be steered onto the
/// same GPU.
pub fn find_adapter_ids(adapters: &[AdapterInfo], luid_high: i32, luid_low: u32) -> (r: Option<
    crate::config::GpuDeviceIds,
>)
    ensures
        r matches Some(ids) ==> (first_adapter_from(adapters@, luid_high, luid_low, 0) matches Some(
            i,
        ) && ids.vendor_id == adapters@[i].vendor_id && ids.device_id == adapters@[i].device_id),
        r is None ==> first_adapter_from(adapters@, luid_high, luid_low, 0) is None,
{
    let n = adapters.len();
    let mut i: usize = 0;
    while i < n
        invariant
            n == adapters@.len(),
            i <= n,
            first_adapter_from(adapters@, luid_high, luid_low, 0) == first_adapter_from(
                adapters@,
                luid_high,
                luid_low,
                i as int,
            ),
        decreases n - i,
    {
        let a = adapters[i];
        if a.luid_high == luid_high && a.luid_low == luid_low {
            return Some(crate::config::GpuDeviceIds::new(a.vendor_id, a.device_id));
        }
        i = i + 1;
    }
    None
}

} // verus!
