use engine_core::context::{Context, Event, Resource, Stage, Step, API_VERSION_1_3};
use engine_core::device::{
    DeviceProperties, MemoryProperties, PhysicalDevice, QueueFamilyProperties, Selection,
    QUEUE_GRAPHICS, QUEUE_TRANSFER,
};
use engine_core::error::Error;

fn device(handle: u64, queue_flags: u32, present: bool) -> PhysicalDevice {
    PhysicalDevice::new(
        handle,
        DeviceProperties { api_version: API_VERSION_1_3, vendor_id: 1, device_id: 2 },
        vec![true, false, true],
        MemoryProperties { memory_types: Vec::new(), memory_heaps: Vec::new() },
        vec![QueueFamilyProperties { queue_flags, queue_count: 1, present }],
    )
}

fn up_to_enumeration(windowed: bool) -> Context {
    let mut context = Context::new(windowed, QUEUE_GRAPHICS | QUEUE_TRANSFER);
    assert_eq!(context.advance(Event::Succeeded), Ok(()));
    assert_eq!(context.advance(Event::Succeeded), Ok(()));
    if windowed {
        assert_eq!(context.advance(Event::Succeeded), Ok(()));
    }
    assert_eq!(context.next_step(), Step::EnumerateDevices);
    context
}

#[test]
fn requested_api_version_is_one_point_three() {
    assert_eq!(API_VERSION_1_3, ash::vk::API_VERSION_1_3);
    assert_eq!(ash::vk::api_version_major(API_VERSION_1_3), 1);
    assert_eq!(ash::vk::api_version_minor(API_VERSION_1_3), 3);
    let mut context = Context::new(false, QUEUE_GRAPHICS);
    assert_eq!(context.advance(Event::Succeeded), Ok(()));
    assert_eq!(
        context.next_step(),
        Step::CreateInstance { api_version: 0x0040_3000, windowed: false }
    );
    match context.next_step() {
        Step::CreateInstance { api_version, .. } => {
            assert!(ash::vk::api_version_major(api_version) >= 1);
            assert!(ash::vk::api_version_minor(api_version) >= 3);
        },
        other => panic!("unexpected step {:?}", other),
    }
}

#[test]
fn new_context_has_nothing() {
    let context = Context::new(true, QUEUE_GRAPHICS);
    assert_eq!(context.stage(), Stage::Unloaded);
    assert_eq!(context.next_step(), Step::LoadEntry);
    assert!(context.is_windowed());
    assert!(!context.is_ready());
    assert!(context.acquired().is_empty());
    assert!(context.physical_devices().is_empty());
    assert_eq!(context.selection(), None);
    assert_eq!(context.failure(), None);
}

#[test]
fn windowed_context_is_built_step_by_step() {
    let mut context = Context::new(true, QUEUE_GRAPHICS | QUEUE_TRANSFER);
    assert_eq!(context.next_step(), Step::LoadEntry);
    assert_eq!(context.advance(Event::Succeeded), Ok(()));
    assert_eq!(context.stage(), Stage::Loaded);
    assert_eq!(
        context.next_step(),
        Step::CreateInstance { api_version: API_VERSION_1_3, windowed: true }
    );
    assert_eq!(context.advance(Event::Succeeded), Ok(()));
    assert_eq!(context.stage(), Stage::InstanceReady);
    assert_eq!(context.acquired(), &vec![Resource::Instance]);
    assert_eq!(context.next_step(), Step::CreateSurface);
    assert_eq!(context.advance(Event::Succeeded), Ok(()));
    assert_eq!(context.stage(), Stage::SurfaceReady);
    assert_eq!(context.acquired(), &vec![Resource::Instance, Resource::Surface]);
    assert_eq!(context.next_step(), Step::EnumerateDevices);
    let devices = vec![
        device(1, QUEUE_GRAPHICS | QUEUE_TRANSFER, false),
        device(2, QUEUE_GRAPHICS | QUEUE_TRANSFER, true),
    ];
    assert_eq!(context.advance(Event::Enumerated(devices)), Ok(()));
    assert_eq!(context.stage(), Stage::Selected);
    assert_eq!(context.selection(), Some(Selection { device: 1, family: 0 }));
    assert_eq!(context.physical_devices().len(), 2);
    assert_eq!(context.physical_devices()[1].handle, 2);
    assert_eq!(context.next_step(), Step::CreateDevice { device: 1, family: 0, queues: 1 });
    assert_eq!(context.advance(Event::Succeeded), Ok(()));
    assert_eq!(context.stage(), Stage::Ready);
    assert!(context.is_ready());
    assert_eq!(context.next_step(), Step::Idle);
    assert_eq!(
        context.acquired(),
        &vec![Resource::Instance, Resource::Surface, Resource::Device]
    );
}

#[test]
fn headless_context_skips_the_surface() {
    let mut context = Context::new(false, QUEUE_GRAPHICS);
    assert_eq!(context.advance(Event::Succeeded), Ok(()));
    assert_eq!(
        context.next_step(),
        Step::CreateInstance { api_version: API_VERSION_1_3, windowed: false }
    );
    assert_eq!(context.advance(Event::Succeeded), Ok(()));
    assert_eq!(context.next_step(), Step::EnumerateDevices);
    assert_eq!(
        context.advance(Event::Enumerated(vec![device(1, QUEUE_GRAPHICS, false)])),
        Ok(())
    );
    assert_eq!(context.selection(), Some(Selection { device: 0, family: 0 }));
    assert_eq!(context.advance(Event::Succeeded), Ok(()));
    assert!(context.is_ready());
    assert_eq!(context.teardown(), vec![Resource::Device, Resource::Instance]);
}

#[test]
fn teardown_of_ready_context_is_device_surface_instance() {
    let mut context = up_to_enumeration(true);
    assert_eq!(
        context.advance(Event::Enumerated(vec![device(1, QUEUE_GRAPHICS | QUEUE_TRANSFER, true)])),
        Ok(())
    );
    assert_eq!(context.advance(Event::Succeeded), Ok(()));
    assert_eq!(
        context.teardown(),
        vec![Resource::Device, Resource::Surface, Resource::Instance]
    );
    assert_eq!(context.stage(), Stage::Destroyed);
    assert!(context.acquired().is_empty());
    assert_eq!(context.next_step(), Step::Idle);
    assert_eq!(context.teardown(), Vec::<Resource>::new());
}

#[test]
fn loader_failure_is_initialization_error() {
    let mut context = Context::new(true, QUEUE_GRAPHICS);
    assert_eq!(context.advance(Event::Failed), Err(Error::Initialization));
    assert_eq!(context.stage(), Stage::Failed);
    assert_eq!(context.failure(), Some(Error::Initialization));
    assert_eq!(context.next_step(), Step::Teardown);
    assert_eq!(context.teardown(), Vec::<Resource>::new());
}

#[test]
fn instance_failure_is_initialization_error() {
    let mut context = Context::new(true, QUEUE_GRAPHICS);
    assert_eq!(context.advance(Event::Succeeded), Ok(()));
    assert_eq!(context.advance(Event::Failed), Err(Error::Initialization));
    assert_eq!(context.teardown(), Vec::<Resource>::new());
}

#[test]
fn surface_failure_releases_the_instance() {
    let mut context = Context::new(true, QUEUE_GRAPHICS);
    assert_eq!(context.advance(Event::Succeeded), Ok(()));
    assert_eq!(context.advance(Event::Succeeded), Ok(()));
    assert_eq!(context.advance(Event::Failed), Err(Error::SurfaceCreation));
    assert_eq!(context.stage(), Stage::Failed);
    assert_eq!(context.failure(), Some(Error::SurfaceCreation));
    assert_eq!(context.teardown(), vec![Resource::Instance]);
    assert_eq!(context.failure(), None);
}

#[test]
fn empty_enumeration_is_no_device_error() {
    let mut context = up_to_enumeration(true);
    assert_eq!(context.advance(Event::Enumerated(Vec::new())), Err(Error::NoDevice));
    assert_eq!(context.failure(), Some(Error::NoDevice));
    assert_eq!(context.teardown(), vec![Resource::Surface, Resource::Instance]);
}

#[test]
fn unsuitable_enumeration_is_no_suitable_device_error() {
    let mut context = up_to_enumeration(true);
    let devices = vec![device(1, QUEUE_GRAPHICS | QUEUE_TRANSFER, false), device(2, QUEUE_TRANSFER, true)];
    assert_eq!(context.advance(Event::Enumerated(devices)), Err(Error::NoSuitableDevice));
    assert_eq!(context.physical_devices().len(), 2);
    assert_eq!(context.selection(), None);
    assert_eq!(context.teardown(), vec![Resource::Surface, Resource::Instance]);
}

#[test]
fn failed_enumeration_is_initialization_error() {
    let mut context = up_to_enumeration(false);
    assert_eq!(context.advance(Event::Failed), Err(Error::Initialization));
    assert_eq!(context.teardown(), vec![Resource::Instance]);
}

#[test]
fn device_failure_releases_surface_then_instance() {
    let mut context = up_to_enumeration(true);
    assert_eq!(
        context.advance(Event::Enumerated(vec![device(1, QUEUE_GRAPHICS | QUEUE_TRANSFER, true)])),
        Ok(())
    );
    assert_eq!(context.advance(Event::Failed), Err(Error::Initialization));
    assert_eq!(context.teardown(), vec![Resource::Surface, Resource::Instance]);
}

#[test]
fn event_that_answers_no_step_is_invalid_state() {
    let mut context = Context::new(true, QUEUE_GRAPHICS);
    assert_eq!(context.advance(Event::Enumerated(Vec::new())), Err(Error::InvalidState));
    assert_eq!(context.stage(), Stage::Unloaded);
    assert_eq!(context.failure(), None);

    let mut context = up_to_enumeration(false);
    assert_eq!(context.advance(Event::Succeeded), Err(Error::InvalidState));
    assert_eq!(context.stage(), Stage::InstanceReady);

    let mut ready = up_to_enumeration(false);
    assert_eq!(
        ready.advance(Event::Enumerated(vec![device(1, QUEUE_GRAPHICS | QUEUE_TRANSFER, false)])),
        Ok(())
    );
    assert_eq!(ready.advance(Event::Succeeded), Ok(()));
    assert_eq!(ready.advance(Event::Succeeded), Err(Error::InvalidState));
    assert_eq!(ready.advance(Event::Failed), Err(Error::InvalidState));
    assert!(ready.is_ready());

    let mut failed = Context::new(false, QUEUE_GRAPHICS);
    assert_eq!(failed.advance(Event::Failed), Err(Error::Initialization));
    assert_eq!(failed.advance(Event::Succeeded), Err(Error::InvalidState));
    assert_eq!(failed.failure(), Some(Error::Initialization));
}

#[test]
fn teardown_trace_keeps_the_order_in_every_stage() {
    let rank = |r: &Resource| match r {
        Resource::Instance => 0,
        Resource::Surface => 1,
        Resource::Device => 2,
    };
    for windowed in [false, true] {
        for steps in 0..6 {
            let mut context = Context::new(windowed, QUEUE_GRAPHICS);
            for _ in 0..steps {
                let event = match context.next_step() {
                    Step::EnumerateDevices => {
                        Event::Enumerated(vec![device(1, QUEUE_GRAPHICS, true)])
                    },
                    _ => Event::Succeeded,
                };
                let _ = context.advance(event);
            }
            let trace = context.teardown();
            for pair in trace.windows(2) {
                assert!(rank(&pair[0]) > rank(&pair[1]));
            }
            assert!(context.acquired().is_empty());
        }
    }
}
