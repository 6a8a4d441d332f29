use engine_core::command::{CommandExecutor, WaitOutcome};
use engine_core::context::{Context, Event, Resource, Stage};
use engine_core::device::{
    DeviceProperties, MemoryHeap, MemoryProperties, MemoryType, PhysicalDevice,
    QueueFamilyProperties, MEMORY_DEVICE_LOCAL, MEMORY_HOST_COHERENT, MEMORY_HOST_VISIBLE,
    QUEUE_GRAPHICS,
};
use engine_core::error::Error;
use engine_core::memory::MemoryLocation;
use engine_core::resources::{allocator_on, belongs_to, teardown_device, Destroy};

fn layout() -> MemoryProperties {
    MemoryProperties {
        memory_types: vec![
            MemoryType { property_flags: MEMORY_DEVICE_LOCAL, heap_index: 0 },
            MemoryType {
                property_flags: MEMORY_HOST_VISIBLE | MEMORY_HOST_COHERENT,
                heap_index: 1,
            },
        ],
        memory_heaps: vec![MemoryHeap { size: 4096 }, MemoryHeap { size: 512 }],
    }
}

fn device(handle: u64, queue_flags: u32, memory: MemoryProperties) -> PhysicalDevice {
    PhysicalDevice::new(
        handle,
        DeviceProperties { api_version: 0, vendor_id: 0, device_id: 0 },
        Vec::new(),
        memory,
        vec![QueueFamilyProperties { queue_flags, queue_count: 1, present: true }],
    )
}

fn ready_on(devices: Vec<PhysicalDevice>, windowed: bool) -> Context {
    let mut context = Context::new(windowed, QUEUE_GRAPHICS);
    assert_eq!(context.advance(Event::Succeeded), Ok(()));
    assert_eq!(context.advance(Event::Succeeded), Ok(()));
    if windowed {
        assert_eq!(context.advance(Event::Succeeded), Ok(()));
    }
    assert_eq!(context.advance(Event::Enumerated(devices)), Ok(()));
    assert_eq!(context.advance(Event::Succeeded), Ok(()));
    context
}

fn ready(windowed: bool) -> Context {
    ready_on(vec![device(1, QUEUE_GRAPHICS, layout())], windowed)
}

#[test]
fn allocator_works_on_the_memory_of_the_chosen_device() {
    let other = MemoryProperties {
        memory_types: vec![MemoryType { property_flags: MEMORY_DEVICE_LOCAL, heap_index: 0 }],
        memory_heaps: vec![MemoryHeap { size: 7 }],
    };
    let context = ready_on(
        vec![device(1, 0, other), device(2, QUEUE_GRAPHICS, layout())],
        false,
    );
    let mut allocator = allocator_on(&context).unwrap();
    assert_eq!(allocator.memory().memory_types, layout().memory_types);
    assert_eq!(allocator.memory().memory_heaps, layout().memory_heaps);
    assert_eq!(allocator.outstanding(), 0);
    let host = allocator.allocate(1, 512, 0b11, MemoryLocation::HostVisibleCoherent).unwrap();
    assert_eq!(host.id(), 0);
    assert_eq!(allocator.binding(host).unwrap().memory_type, 1);
}

#[test]
fn context_without_device_has_no_allocator() {
    let mut context = Context::new(false, QUEUE_GRAPHICS);
    assert_eq!(allocator_on(&context).err(), Some(Error::InvalidState));
    assert_eq!(context.advance(Event::Succeeded), Ok(()));
    assert_eq!(context.advance(Event::Succeeded), Ok(()));
    assert_eq!(
        context.advance(Event::Enumerated(vec![device(1, QUEUE_GRAPHICS, layout())])),
        Ok(())
    );
    assert_eq!(context.stage(), Stage::Selected);
    assert_eq!(allocator_on(&context).err(), Some(Error::InvalidState));
    let mut gone = ready(true);
    let _ = gone.teardown();
    assert_eq!(allocator_on(&gone).err(), Some(Error::InvalidState));
}

#[test]
fn allocator_on_a_broken_memory_layout_is_an_initialization_error() {
    let broken = MemoryProperties {
        memory_types: vec![MemoryType { property_flags: MEMORY_DEVICE_LOCAL, heap_index: 3 }],
        memory_heaps: vec![MemoryHeap { size: 7 }],
    };
    let context = ready_on(vec![device(1, QUEUE_GRAPHICS, broken)], false);
    assert_eq!(allocator_on(&context).err(), Some(Error::Initialization));
}

#[test]
fn teardown_destroys_allocator_and_pool_before_the_device() {
    let mut context = ready(true);
    let allocator = allocator_on(&context).unwrap();
    let executor = CommandExecutor::new();
    let trace = teardown_device(&mut context, allocator, executor).unwrap();
    assert_eq!(
        trace,
        vec![
            Destroy::Allocator,
            Destroy::CommandPool,
            Destroy::Driver(Resource::Device),
            Destroy::Driver(Resource::Surface),
            Destroy::Driver(Resource::Instance),
        ]
    );
    assert_eq!(context.stage(), Stage::Destroyed);
    assert!(context.acquired().is_empty());
}

#[test]
fn teardown_of_a_headless_context_skips_the_surface() {
    let mut context = ready(false);
    let allocator = allocator_on(&context).unwrap();
    let trace = teardown_device(&mut context, allocator, CommandExecutor::new()).unwrap();
    assert_eq!(
        trace,
        vec![
            Destroy::Allocator,
            Destroy::CommandPool,
            Destroy::Driver(Resource::Device),
            Destroy::Driver(Resource::Instance),
        ]
    );
}

#[test]
fn teardown_with_outstanding_allocations_is_a_leak() {
    let mut context = ready(true);
    let mut allocator = allocator_on(&context).unwrap();
    let held = allocator.allocate(1, 16, 0b11, MemoryLocation::DeviceLocal).unwrap();
    let refused = teardown_device(&mut context, allocator, CommandExecutor::new()).unwrap_err();
    assert_eq!(refused.error, Error::AllocatorLeak);
    assert_eq!(context.stage(), Stage::Ready);
    assert_eq!(context.acquired().len(), 3);
    let mut allocator = refused.allocator;
    assert_eq!(allocator.outstanding(), 1);
    assert_eq!(allocator.free(held), Ok(()));
    let trace = teardown_device(&mut context, allocator, refused.executor).unwrap();
    assert_eq!(trace[0], Destroy::Allocator);
    assert_eq!(trace.len(), 5);
}

#[test]
fn teardown_waits_for_pending_submissions() {
    let mut context = ready(true);
    let allocator = allocator_on(&context).unwrap();
    let mut executor = CommandExecutor::new();
    let h = executor.begin_recording();
    assert_eq!(executor.end_recording(h), Ok(()));
    assert!(!executor.is_busy());
    let fence = executor.submit(h).unwrap();
    assert!(executor.is_busy());
    let refused = teardown_device(&mut context, allocator, executor).unwrap_err();
    assert_eq!(refused.error, Error::InvalidState);
    assert_eq!(context.stage(), Stage::Ready);
    let mut executor = refused.executor;
    assert_eq!(executor.wait(fence, 0), WaitOutcome::TimedOut);
    assert!(executor.is_busy());
    assert_eq!(executor.signal(fence), Ok(()));
    assert!(!executor.is_busy());
    let trace = teardown_device(&mut context, refused.allocator, executor).unwrap();
    assert_eq!(trace.len(), 5);
    assert_eq!(trace[2], Destroy::Driver(Resource::Device));
}

#[test]
fn leak_is_reported_before_pending_work() {
    let mut context = ready(false);
    let mut allocator = allocator_on(&context).unwrap();
    let _held = allocator.allocate(1, 16, 0b11, MemoryLocation::DeviceLocal).unwrap();
    let mut executor = CommandExecutor::new();
    let h = executor.begin_recording();
    assert_eq!(executor.end_recording(h), Ok(()));
    let _fence = executor.submit(h).unwrap();
    let refused = teardown_device(&mut context, allocator, executor).unwrap_err();
    assert_eq!(refused.error, Error::AllocatorLeak);
}

#[test]
fn buffers_that_are_not_in_flight_do_not_hold_the_device() {
    let mut context = ready(false);
    let allocator = allocator_on(&context).unwrap();
    let mut executor = CommandExecutor::new();
    let recording = executor.begin_recording();
    let executable = executor.begin_recording();
    assert_eq!(executor.end_recording(executable), Ok(()));
    let done = executor.begin_recording();
    assert_eq!(executor.end_recording(done), Ok(()));
    let fence = executor.submit(done).unwrap();
    assert_eq!(executor.signal(fence), Ok(()));
    assert_eq!(executor.fill_buffer(recording, 1, 0, 4, 1), Ok(()));
    assert!(!executor.is_busy());
    assert!(teardown_device(&mut context, allocator, executor).is_ok());
}

#[test]
fn teardown_needs_the_allocator_of_the_context() {
    let foreign_layout = MemoryProperties {
        memory_types: vec![MemoryType { property_flags: MEMORY_DEVICE_LOCAL, heap_index: 0 }],
        memory_heaps: vec![MemoryHeap { size: 7 }],
    };
    let foreign = ready_on(vec![device(9, QUEUE_GRAPHICS, foreign_layout)], false);
    let mut context = ready(true);
    assert!(belongs_to(&allocator_on(&context).unwrap(), &context));
    assert!(!belongs_to(&allocator_on(&foreign).unwrap(), &context));
    let refused =
        teardown_device(&mut context, allocator_on(&foreign).unwrap(), CommandExecutor::new())
            .unwrap_err();
    assert_eq!(refused.error, Error::InvalidState);
    assert_eq!(context.stage(), Stage::Ready);
    let own = allocator_on(&context).unwrap();
    assert_eq!(teardown_device(&mut context, own, refused.executor).unwrap().len(), 5);
}

#[test]
fn context_without_device_is_torn_down_alone() {
    let mut context = Context::new(true, QUEUE_GRAPHICS);
    assert_eq!(context.advance(Event::Succeeded), Ok(()));
    assert_eq!(context.advance(Event::Succeeded), Ok(()));
    assert_eq!(context.advance(Event::Failed), Err(Error::SurfaceCreation));
    let allocator = allocator_on(&ready(false)).unwrap();
    assert!(!belongs_to(&allocator, &context));
    let refused = teardown_device(&mut context, allocator, CommandExecutor::new()).unwrap_err();
    assert_eq!(refused.error, Error::InvalidState);
    assert_eq!(context.stage(), Stage::Failed);
    assert_eq!(context.teardown(), vec![Resource::Instance]);
}
