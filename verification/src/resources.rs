//! What lives on the logical device of a context, its allocator and its
//! command pool, and how they go before the device does.

use crate::command::CommandExecutor;
use crate::context::{Context, ContextView, Resource, Stage};
use crate::device::{MemoryHeap, MemoryProperties, MemoryType};
use crate::error::Error;
use crate::memory::{AllocatorView, MemoryAllocator};
use vstd::prelude::*;

verus! {

/// One step of the destruction of a device context with what lives on its
/// device.
#[derive(Debug, Clone, Copy, PartialEq, Eq, Structural)]
pub enum Destroy {
    /// Tear the allocator down.
    Allocator,
    /// Destroy the command pool, and with it its command buffers.
    CommandPool,
    /// Destroy a driver object of the context.
    Driver(Resource),
}

/// A teardown that was refused: why, and the allocator and the executor,
/// which live on.
#[derive(Debug)]
pub struct Refused {
    pub error: Error,
    pub allocator: MemoryAllocator,
    pub executor: CommandExecutor,
}

/// The order of destruction of a context that holds `acquired` and of what
/// lives on its device: the allocator and the command pool first, then the
/// driver objects in the reverse of the order of their creation.
pub open spec fn destroy_order(acquired: Seq<Resource>) -> Seq<Destroy> {
    Seq::new(
        acquired.len() + 2,
        |i: int|
            if i == 0 {
                Destroy::Allocator
            } else if i == 1 {
                Destroy::CommandPool
            } else {
                Destroy::Driver(acquired[acquired.len() + 1 - i])
            },
    )
}

/// The memory layout of the device that the context has chosen.
pub open spec fn chosen_memory(context: ContextView) -> MemoryProperties {
    context.devices[context.selection->Some_0.device as int].memory_properties
}

/// The allocator is the one of the context: the context has its logical
/// device, and the allocator works on the memory layout of the device that
/// the context has chosen.
pub open spec fn is_allocator_of(allocator: AllocatorView, context: ContextView) -> bool {
    &&& context.stage == Stage::Ready
    &&& allocator.types == chosen_memory(context).memory_types@
    &&& allocator.heaps == chosen_memory(context).memory_heaps@
}

fn same_types(left: &Vec<MemoryType>, right: &Vec<MemoryType>) -> (same: bool)
    ensures
        same == (left@ == right@),
{
    if left.len() != right.len() {
        return false;
    }
    let mut i: usize = 0;
    while i < left.len()
        invariant
            left@.len() == right@.len(),
            i <= left@.len(),
            forall|k: int| 0 <= k < i ==> left@[k] == right@[k],
        decreases left@.len() - i,
    {
        if left[i] != right[i] {
            return false;
        }
        i += 1;
    }
    assert(left@ =~= right@);
    true
}

fn same_heaps(left: &Vec<MemoryHeap>, right: &Vec<MemoryHeap>) -> (same: bool)
    ensures
        same == (left@ == right@),
{
    if left.len() != right.len() {
        return false;
    }
    let mut i: usize = 0;
    while i < left.len()
        invariant
            left@.len() == right@.len(),
            i <= left@.len(),
            forall|k: int| 0 <= k < i ==> left@[k] == right@[k],
        decreases left@.len() - i,
    {
        if left[i] != right[i] {
            return false;
        }
        i += 1;
    }
    assert(left@ =~= right@);
    true
}

/// Whether the allocator is the one of the context.
pub fn belongs_to(allocator: &MemoryAllocator, context: &Context) -> (belongs: bool)
    requires
        context@.wf(),
    ensures
        belongs == is_allocator_of(allocator@, context@),
{
    if !context.is_ready() {
        return false;
    }
    match context.selection() {
        Some(chosen) => {
            let memory = &context.physical_devices()[chosen.device].memory_properties;
            same_types(&allocator.memory().memory_types, &memory.memory_types) && same_heaps(
                &allocator.memory().memory_heaps,
                &memory.memory_heaps,
            )
        },
        None => false,
    }
}

fn copy_types(types: &Vec<MemoryType>) -> (copy: Vec<MemoryType>)
    ensures
        copy@ == types@,
{
    let mut copy: Vec<MemoryType> = Vec::new();
    let mut i: usize = 0;
    while i < types.len()
        invariant
            i <= types@.len(),
            copy@ == types@.take(i as int),
        decreases types@.len() - i,
    {
        copy.push(types[i]);
        i += 1;
    }
    copy
}

fn copy_heaps(heaps: &Vec<MemoryHeap>) -> (copy: Vec<MemoryHeap>)
    ensures
        copy@ == heaps@,
{
    let mut copy: Vec<MemoryHeap> = Vec::new();
    let mut i: usize = 0;
    while i < heaps.len()
        invariant
            i <= heaps@.len(),
            copy@ == heaps@.take(i as int),
        decreases heaps@.len() - i,
    {
        copy.push(heaps[i]);
        i += 1;
    }
    copy
}

/// Makes the allocator of a context: an empty allocator over the memory
/// layout of the device that the context has chosen. A context without a
/// logical device has no allocator (`InvalidState`); a memory layout that
/// no allocator can work on is refused with `Initialization`.
pub fn allocator_on(context: &Context) -> (made: Result<MemoryAllocator, Error>)
    requires
        context@.wf(),
    ensures
        match made {
            Ok(allocator) => {
                &&& context@.stage == Stage::Ready
                &&& chosen_memory(context@).wf()
                &&& allocator@.wf()
                &&& is_allocator_of(allocator@, context@)
                &&& allocator@ == (AllocatorView {
                    types: chosen_memory(context@).memory_types@,
                    heaps: chosen_memory(context@).memory_heaps@,
                    live: Seq::empty(),
                    issued: 0,
                })
            },
            Err(e) => if context@.stage != Stage::Ready {
                e == Error::InvalidState
            } else {
                e == Error::Initialization && !chosen_memory(context@).wf()
            },
        },
{
    if !context.is_ready() {
        return Err(Error::InvalidState);
    }
    match context.selection() {
        Some(chosen) => {
            let memory = &context.physical_devices()[chosen.device].memory_properties;
            MemoryAllocator::new(
                MemoryProperties {
                    memory_types: copy_types(&memory.memory_types),
                    memory_heaps: copy_heaps(&memory.memory_heaps),
                },
            )
        },
        None => Err(Error::InvalidState),
    }
}

/// Tears a context down together with the allocator and the executor of
/// its device.
///
/// With allocations outstanding it is refused as an `AllocatorLeak`.
/// Otherwise it is refused with `InvalidState` while a command buffer is
/// pending on a fence that is not signaled, since the device must not go
/// while work may still run on it, and where the allocator is not the one
/// of this context. A refusal changes nothing and hands the allocator and
/// the executor back. Where nothing stands in the way, the
/// allocator and the executor end here, the context is left with nothing,
/// and the result lists what is to be destroyed, in this order: the
/// allocator, the command pool, and then the driver objects, the device
/// before the surface and the surface before the instance.
pub fn teardown_device(
    context: &mut Context,
    allocator: MemoryAllocator,
    executor: CommandExecutor,
) -> (result: Result<Vec<Destroy>, Refused>)
    requires
        old(context)@.wf(),
        allocator@.wf(),
        executor@.wf(),
    ensures
        final(context)@.wf(),
        match result {
            Ok(trace) => {
                &&& allocator@.live.len() == 0
                &&& !executor@.is_busy()
                &&& is_allocator_of(allocator@, old(context)@)
                &&& trace@ == destroy_order(old(context)@.acquired)
                &&& final(context)@ == (ContextView {
                    stage: Stage::Destroyed,
                    acquired: Seq::empty(),
                    failure: None,
                    ..old(context)@
                })
            },
            Err(refused) => {
                &&& refused.allocator == allocator
                &&& refused.executor == executor
                &&& final(context)@ == old(context)@
                &&& if allocator@.live.len() > 0 {
                    refused.error == Error::AllocatorLeak
                } else {
                    &&& refused.error == Error::InvalidState
                    &&& executor@.is_busy() || !is_allocator_of(allocator@, old(context)@)
                }
            },
        },
{
    if allocator.outstanding() > 0 {
        return Err(Refused { error: Error::AllocatorLeak, allocator, executor });
    }
    if executor.is_busy() || !belongs_to(&allocator, context) {
        return Err(Refused { error: Error::InvalidState, allocator, executor });
    }
    let released = context.teardown();
    let mut trace: Vec<Destroy> = Vec::new();
    trace.push(Destroy::Allocator);
    trace.push(Destroy::CommandPool);
    let mut i: usize = 0;
    while i < released.len()
        invariant
            i <= released@.len(),
            released@ == old(context)@.acquired.reverse(),
            trace@.len() == i + 2,
            forall|k: int|
                0 <= k < trace@.len() ==> trace@[k] == destroy_order(old(context)@.acquired)[k],
        decreases released@.len() - i,
    {
        trace.push(Destroy::Driver(released[i]));
        i += 1;
    }
    Ok(trace)
}

/// The allocator and the command pool go before every driver object: they
/// are the first two steps of the destruction, whatever the context holds,
/// and so the device is destroyed only after the allocator is torn down.
pub proof fn lemma_allocator_before_device(acquired: Seq<Resource>, step: int)
    requires
        0 <= step < destroy_order(acquired).len(),
    ensures
        destroy_order(acquired)[0] == Destroy::Allocator,
        destroy_order(acquired)[1] == Destroy::CommandPool,
        destroy_order(acquired)[step] is Driver ==> step >= 2,
        step >= 2 ==> destroy_order(acquired)[step] == Destroy::Driver(
            acquired.reverse()[step - 2],
        ),
{
}

} // verus!
