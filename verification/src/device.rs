//! Physical devices as the driver reports them, and the choice of the one
//! to work on.

use crate::error::Error;
use vstd::prelude::*;

verus! {

/// Capability bit of a queue family: graphics operations.
pub const QUEUE_GRAPHICS: u32 = 0x1;

/// Capability bit of a queue family: compute operations.
pub const QUEUE_COMPUTE: u32 = 0x2;

/// Capability bit of a queue family: transfer operations.
pub const QUEUE_TRANSFER: u32 = 0x4;

/// Property bit of a memory type: memory that lives on the device.
pub const MEMORY_DEVICE_LOCAL: u32 = 0x1;

/// Property bit of a memory type: memory that the host can map.
pub const MEMORY_HOST_VISIBLE: u32 = 0x2;

/// Property bit of a memory type: host writes need no explicit flush.
pub const MEMORY_HOST_COHERENT: u32 = 0x4;

/// What the driver reports of one queue family, together with whether the
/// family can present to the surface of the context that probed it.
#[derive(Debug, Clone, Copy, PartialEq, Eq, Structural)]
pub struct QueueFamilyProperties {
    /// Capability bits (`QUEUE_GRAPHICS` and the like).
    pub queue_flags: u32,
    /// How many queues the family offers.
    pub queue_count: u32,
    /// Whether the family can present to the context's surface. False for a
    /// headless context.
    pub present: bool,
}

/// One queue family of a physical device, with its position in the
/// device's table.
#[derive(Debug, Clone, Copy, PartialEq, Eq, Structural)]
pub struct QueueFamily {
    pub index: usize,
    pub properties: QueueFamilyProperties,
}

/// One entry of a device's memory-type table.
#[derive(Debug, Clone, Copy, PartialEq, Eq, Structural)]
pub struct MemoryType {
    /// Property bits (`MEMORY_DEVICE_LOCAL` and the like).
    pub property_flags: u32,
    /// The heap that backs this type.
    pub heap_index: u32,
}

/// One memory heap of a device.
#[derive(Debug, Clone, Copy, PartialEq, Eq, Structural)]
pub struct MemoryHeap {
    /// Capacity in bytes.
    pub size: u64,
}

/// The memory layout of a device: its types and the heaps behind them.
#[derive(Debug, Clone)]
pub struct MemoryProperties {
    pub memory_types: Vec<MemoryType>,
    pub memory_heaps: Vec<MemoryHeap>,
}

/// Identity of a device as the driver reports it.
#[derive(Debug, Clone, Copy, PartialEq, Eq, Structural)]
pub struct DeviceProperties {
    pub api_version: u32,
    pub vendor_id: u32,
    pub device_id: u32,
}

/// Snapshot of one enumerated physical device. Taken once, never changed.
#[derive(Debug, Clone)]
pub struct PhysicalDevice {
    pub handle: u64,
    pub properties: DeviceProperties,
    /// The features of the device, one entry for each in the order in which
    /// the driver lists them: `true` where the device supports the feature.
    pub features: Vec<bool>,
    pub memory_properties: MemoryProperties,
    pub queue_families: Vec<QueueFamily>,
}

/// A chosen device and queue family, both as positions: the device in the
/// enumeration, the family in that device's table.
#[derive(Debug, Clone, Copy, PartialEq, Eq, Structural)]
pub struct Selection {
    pub device: usize,
    pub family: usize,
}

impl QueueFamily {
    /// The family has every capability in `required` and, where
    /// `need_present` is set, can present.
    pub open spec fn spec_supports(&self, required: u32, need_present: bool) -> bool {
        &&& self.properties.queue_flags & required == required
        &&& need_present ==> self.properties.present
    }

    /// Whether the family has every capability in `required` and, where
    /// `need_present` is set, can present.
    #[verifier::when_used_as_spec(spec_supports)]
    pub fn supports(&self, required: u32, need_present: bool) -> (r: bool)
        ensures
            r == self.spec_supports(required, need_present),
    {
        (self.properties.queue_flags & required) == required && (!need_present
            || self.properties.present)
    }
}

impl MemoryProperties {
    /// The tables are small enough to be addressed by a 32-bit mask, and
    /// every type names an existing heap.
    pub open spec fn wf(&self) -> bool {
        &&& self.memory_types@.len() <= 32
        &&& forall|i: int|
            0 <= i < self.memory_types@.len() ==> (#[trigger] self.memory_types@[i]).heap_index
                < self.memory_heaps@.len()
    }
}

impl PhysicalDevice {
    /// Every queue family sits at the position that its index names.
    pub open spec fn wf(&self) -> bool {
        forall|i: int|
            0 <= i < self.queue_families@.len() ==> (#[trigger] self.queue_families@[i]).index == i
    }

    /// Builds the snapshot of one device from what the driver reported. The
    /// queue families are numbered in the order in which they were reported.
    pub fn new(
        handle: u64,
        properties: DeviceProperties,
        features: Vec<bool>,
        memory_properties: MemoryProperties,
        families: Vec<QueueFamilyProperties>,
    ) -> (device: PhysicalDevice)
        ensures
            device.wf(),
            device.handle == handle,
            device.properties == properties,
            device.features == features,
            device.memory_properties == memory_properties,
            device.queue_families@.len() == families@.len(),
            forall|i: int|
                0 <= i < families@.len() ==> (#[trigger] device.queue_families@[i]).properties
                    == families@[i],
    {
        let mut queue_families: Vec<QueueFamily> = Vec::new();
        let mut index: usize = 0;
        while index < families.len()
            invariant
                index <= families@.len(),
                queue_families@.len() == index,
                forall|i: int|
                    0 <= i < index ==> (#[trigger] queue_families@[i]).index == i
                        && queue_families@[i].properties == families@[i],
            decreases families@.len() - index,
        {
            queue_families.push(QueueFamily { index, properties: families[index] });
            index += 1;
        }
        PhysicalDevice { handle, properties, features, memory_properties, queue_families }
    }

    /// Some queue family of the device supports the request.
    pub open spec fn spec_is_suitable(&self, required: u32, need_present: bool) -> bool {
        exists|j: int|
            0 <= j < self.queue_families@.len() && (#[trigger] self.queue_families@[j]).supports(
                required,
                need_present,
            )
    }

    /// `family` is the first queue family of the device that supports the
    /// request.
    pub open spec fn is_first_family(&self, required: u32, need_present: bool, family: int) -> bool {
        &&& 0 <= family < self.queue_families@.len()
        &&& self.queue_families@[family].supports(required, need_present)
        &&& forall|j: int|
            0 <= j < family ==> !(#[trigger] self.queue_families@[j]).supports(
                required,
                need_present,
            )
    }

    /// The position of the first queue family that supports the request, if
    /// there is one.
    pub fn first_family(&self, required: u32, need_present: bool) -> (found: Option<usize>)
        ensures
            match found {
                Some(family) => self.is_first_family(required, need_present, family as int),
                None => !self.spec_is_suitable(required, need_present),
            },
    {
        let mut j: usize = 0;
        while j < self.queue_families.len()
            invariant
                j <= self.queue_families@.len(),
                forall|k: int|
                    0 <= k < j ==> !(#[trigger] self.queue_families@[k]).supports(
                        required,
                        need_present,
                    ),
            decreases self.queue_families@.len() - j,
        {
            if self.queue_families[j].supports(required, need_present) {
                return Some(j);
            }
            j += 1;
        }
        None
    }

    /// Whether some queue family of the device supports the request.
    #[verifier::when_used_as_spec(spec_is_suitable)]
    pub fn is_suitable(&self, required: u32, need_present: bool) -> (r: bool)
        ensures
            r == self.spec_is_suitable(required, need_present),
    {
        self.first_family(required, need_present).is_some()
    }
}

/// `chosen` names the first suitable device of the enumeration and the first
/// supporting queue family of that device.
pub open spec fn is_selection(
    devices: Seq<PhysicalDevice>,
    required: u32,
    need_present: bool,
    chosen: Selection,
) -> bool {
    &&& chosen.device < devices.len()
    &&& devices[chosen.device as int].is_first_family(required, need_present, chosen.family as int)
    &&& forall|i: int|
        0 <= i < chosen.device ==> !(#[trigger] devices[i]).is_suitable(required, need_present)
}

/// What selection owes on an enumeration: the first suitable device in
/// enumeration order, `NoDevice` for an empty enumeration, and
/// `NoSuitableDevice` where devices exist but none is suitable.
pub open spec fn is_selection_outcome(
    devices: Seq<PhysicalDevice>,
    required: u32,
    need_present: bool,
    outcome: Result<Selection, Error>,
) -> bool {
    match outcome {
        Ok(chosen) => is_selection(devices, required, need_present, chosen),
        Err(e) => {
            &&& forall|i: int|
                0 <= i < devices.len() ==> !(#[trigger] devices[i]).is_suitable(
                    required,
                    need_present,
                )
            &&& e == if devices.len() == 0 {
                Error::NoDevice
            } else {
                Error::NoSuitableDevice
            }
        },
    }
}

/// Chooses the device to create a logical device on.
///
/// Devices are tried in enumeration order and the first one with a queue
/// family that has every capability in `required` wins; with `need_present`
/// the family must also be able to present. Within the device the first such
/// family is taken. Nothing is reordered.
pub fn select_device(devices: &Vec<PhysicalDevice>, required: u32, need_present: bool) -> (outcome:
    Result<Selection, Error>)
    ensures
        is_selection_outcome(devices@, required, need_present, outcome),
{
    if devices.len() == 0 {
        return Err(Error::NoDevice);
    }
    let mut i: usize = 0;
    while i < devices.len()
        invariant
            i <= devices@.len(),
            forall|k: int|
                0 <= k < i ==> !(#[trigger] devices@[k]).is_suitable(required, need_present),
        decreases devices@.len() - i,
    {
        match devices[i].first_family(required, need_present) {
            Some(family) => {
                return Ok(Selection { device: i, family });
            },
            None => {},
        }
        i += 1;
    }
    Err(Error::NoSuitableDevice)
}

/// Selection is deterministic: an enumeration and a request admit exactly one
/// outcome, so two runs on the same enumeration agree on the device and the
/// queue family, or on the error.
pub proof fn lemma_selection_deterministic(
    devices: Seq<PhysicalDevice>,
    required: u32,
    need_present: bool,
    first: Result<Selection, Error>,
    second: Result<Selection, Error>,
)
    requires
        is_selection_outcome(devices, required, need_present, first),
        is_selection_outcome(devices, required, need_present, second),
    ensures
        first == second,
{
}

/// Selection succeeds exactly when some enumerated device is suitable.
pub proof fn lemma_selection_succeeds_iff_suitable(
    devices: Seq<PhysicalDevice>,
    required: u32,
    need_present: bool,
    outcome: Result<Selection, Error>,
)
    requires
        is_selection_outcome(devices, required, need_present, outcome),
    ensures
        outcome is Ok <==> exists|i: int|
            0 <= i < devices.len() && (#[trigger] devices[i]).is_suitable(required, need_present),
{
}

} // verus!
