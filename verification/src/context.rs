//! The life cycle of a device context: what is created in which order, and
//! what is destroyed in which order.

use crate::device::{is_selection, is_selection_outcome, select_device, PhysicalDevice, Selection};
use crate::error::Error;
use vstd::prelude::*;

verus! {

/// The packed API version 1.3.0 that instance creation asks for: major
/// version in bits 22 to 28, minor version in bits 12 to 21.
pub const API_VERSION_1_3: u32 = 0x0040_3000;

/// A driver object that a context owns while it lives.
#[derive(Debug, Clone, Copy, PartialEq, Eq, Structural)]
pub enum Resource {
    Instance,
    Surface,
    Device,
}

/// How far the construction of a context has come.
#[derive(Debug, Clone, Copy, PartialEq, Eq, Structural)]
pub enum Stage {
    /// Nothing has been done yet.
    Unloaded,
    /// The API entry point is loaded.
    Loaded,
    /// The instance exists.
    InstanceReady,
    /// The surface exists. Only a windowed context passes through here.
    SurfaceReady,
    /// The devices are probed and one of them is chosen.
    Selected,
    /// The logical device and its queue exist: the context is usable.
    Ready,
    /// A step failed. What was acquired before it still awaits teardown.
    Failed,
    /// Everything has been released.
    Destroyed,
}

/// The driver call that the program around the library is to make next.
#[derive(Debug, Clone, Copy, PartialEq, Eq, Structural)]
pub enum Step {
    /// Load the API entry point.
    LoadEntry,
    /// Create the instance for the given API version, with the presentation
    /// extensions of the window system if `windowed`.
    CreateInstance { api_version: u32, windowed: bool },
    /// Create the surface on the window.
    CreateSurface,
    /// Enumerate the physical devices and probe each of them.
    EnumerateDevices,
    /// Create the logical device on the device at position `device` of the
    /// enumeration, with `queues` queues of the family at position `family`,
    /// each at the highest priority.
    CreateDevice { device: usize, family: usize, queues: u32 },
    /// Construction failed: release what `teardown` lists.
    Teardown,
    /// Nothing is to be done.
    Idle,
}

/// What the driver answered to the last step.
#[derive(Debug)]
pub enum Event {
    /// The call succeeded.
    Succeeded,
    /// The call failed.
    Failed,
    /// The enumeration succeeded with these devices, in enumeration order.
    Enumerated(Vec<PhysicalDevice>),
}

/// The life cycle of one device context.
///
/// A context is built step by step: `next_step` says which driver call is
/// due, `advance` takes the driver's answer. `teardown` lists what has to be
/// destroyed, in the order in which it has to be destroyed, at whatever stage
/// the context is.
#[derive(Debug)]
pub struct Context {
    windowed: bool,
    required: u32,
    stage: Stage,
    acquired: Vec<Resource>,
    physical_devices: Vec<PhysicalDevice>,
    selection: Option<Selection>,
    failure: Option<Error>,
}

/// What a context is, for contracts.
pub struct ContextView {
    /// Whether the context presents to a window.
    pub windowed: bool,
    /// The queue capabilities that the caller asked for.
    pub required: u32,
    pub stage: Stage,
    /// The driver objects that exist, in the order of their creation.
    pub acquired: Seq<Resource>,
    /// The enumerated devices, once they are probed.
    pub devices: Seq<PhysicalDevice>,
    /// The chosen device and family, once chosen.
    pub selection: Option<Selection>,
    /// Why construction failed, if it did.
    pub failure: Option<Error>,
}

/// The order in which a context creates its driver objects.
pub open spec fn creation_order(windowed: bool) -> Seq<Resource> {
    if windowed {
        seq![Resource::Instance, Resource::Surface, Resource::Device]
    } else {
        seq![Resource::Instance, Resource::Device]
    }
}

/// Position of a resource in the order of creation.
pub open spec fn rank(resource: Resource) -> int {
    match resource {
        Resource::Instance => 0,
        Resource::Surface => 1,
        Resource::Device => 2,
    }
}

/// In `trace` whatever was created later is destroyed earlier: the device
/// before the surface, the surface before the instance, each at most once.
pub open spec fn released_in_order(trace: Seq<Resource>) -> bool {
    forall|i: int, j: int|
        0 <= i < j < trace.len() ==> rank(#[trigger] trace[i]) > rank(#[trigger] trace[j])
}

/// The event is an answer to the step.
pub open spec fn answers(step: Step, event: Event) -> bool {
    match step {
        Step::LoadEntry | Step::CreateInstance { .. } | Step::CreateSurface | Step::CreateDevice {
            ..
        } => event is Succeeded || event is Failed,
        Step::EnumerateDevices => event is Enumerated || event is Failed,
        Step::Teardown | Step::Idle => false,
    }
}

impl ContextView {
    /// How many driver objects exist at each stage of construction; a failed
    /// context may hold any number of them short of the device.
    pub open spec fn wf(self) -> bool {
        let order = creation_order(self.windowed);
        &&& self.acquired.len() <= order.len()
        &&& self.acquired =~= order.take(self.acquired.len() as int)
        &&& match self.stage {
            Stage::Unloaded | Stage::Loaded | Stage::Destroyed => self.acquired.len() == 0,
            Stage::InstanceReady => self.acquired.len() == 1,
            Stage::SurfaceReady => self.windowed && self.acquired.len() == 2,
            Stage::Selected => self.acquired.len() == order.len() - 1,
            Stage::Ready => self.acquired.len() == order.len(),
            Stage::Failed => self.acquired.len() < order.len(),
        }
        &&& (self.stage == Stage::Selected || self.stage == Stage::Ready) ==> {
            &&& self.selection matches Some(chosen)
            &&& is_selection(self.devices, self.required, self.windowed, chosen)
        }
        &&& self.stage == Stage::Failed <==> self.failure is Some
    }

    /// The driver call that is due.
    pub open spec fn next_step(self) -> Step {
        match self.stage {
            Stage::Unloaded => Step::LoadEntry,
            Stage::Loaded => Step::CreateInstance {
                api_version: API_VERSION_1_3,
                windowed: self.windowed,
            },
            Stage::InstanceReady => if self.windowed {
                Step::CreateSurface
            } else {
                Step::EnumerateDevices
            },
            Stage::SurfaceReady => Step::EnumerateDevices,
            Stage::Selected => match self.selection {
                Some(chosen) => Step::CreateDevice {
                    device: chosen.device,
                    family: chosen.family,
                    queues: 1,
                },
                None => Step::Idle,
            },
            Stage::Failed => Step::Teardown,
            Stage::Ready | Stage::Destroyed => Step::Idle,
        }
    }

    /// The error that a failure of the step that is due stands for.
    pub open spec fn failure_of_step(self) -> Error {
        match self.next_step() {
            Step::CreateSurface => Error::SurfaceCreation,
            _ => Error::Initialization,
        }
    }

    /// The context with one more driver object, at the given stage.
    pub open spec fn acquire(self, resource: Resource, stage: Stage) -> ContextView {
        ContextView { stage, acquired: self.acquired.push(resource), ..self }
    }

    /// The context after a step failed with `error`.
    pub open spec fn fail(self, error: Error) -> ContextView {
        ContextView { stage: Stage::Failed, failure: Some(error), ..self }
    }

    /// The context after the driver call `self.next_step()` succeeded
    /// without a value to report.
    pub open spec fn succeed(self) -> ContextView {
        match self.stage {
            Stage::Unloaded => ContextView { stage: Stage::Loaded, ..self },
            Stage::Loaded => self.acquire(Resource::Instance, Stage::InstanceReady),
            Stage::InstanceReady => self.acquire(Resource::Surface, Stage::SurfaceReady),
            Stage::Selected => self.acquire(Resource::Device, Stage::Ready),
            _ => self,
        }
    }

    /// `next` and `result` are what `advance` owes on `event`.
    ///
    /// An event that does not answer the step that is due is refused with
    /// `InvalidState` and changes nothing. A failure moves the context to
    /// `Failed` and is reported: a failed surface as `SurfaceCreation`, any
    /// other failed call as `Initialization`. An enumeration is stored and
    /// selection runs on it, with presentation asked for exactly when the
    /// context is windowed; its error, if any, fails the context.
    pub open spec fn advanced(
        self,
        event: Event,
        next: ContextView,
        result: Result<(), Error>,
    ) -> bool {
        if !answers(self.next_step(), event) {
            next == self && result == Err::<(), Error>(Error::InvalidState)
        } else {
            match event {
                Event::Succeeded => next == self.succeed() && result is Ok,
                Event::Failed => next == self.fail(self.failure_of_step()) && result == Err::<
                    (),
                    Error,
                >(self.failure_of_step()),
                Event::Enumerated(devices) => {
                    let probed = ContextView { devices: devices@, ..self };
                    match result {
                        Ok(()) => {
                            &&& next.selection matches Some(chosen)
                            &&& is_selection(devices@, self.required, self.windowed, chosen)
                            &&& next == ContextView {
                                stage: Stage::Selected,
                                selection: Some(chosen),
                                ..probed
                            }
                        },
                        Err(e) => {
                            &&& is_selection_outcome(
                                devices@,
                                self.required,
                                self.windowed,
                                Err(e),
                            )
                            &&& next == probed.fail(e)
                        },
                    }
                },
            }
        }
    }
}

/// `ash::vk::API_VERSION_1_3`, the constant that the instance is created
/// with. The contract gives its value: version 1.3.0 of variant 0, packed
/// as `1 << 22 | 3 << 12`.
#[verifier::external_body]
fn api_version_1_3() -> (version: u32)
    ensures
        version == API_VERSION_1_3,
{
    ash::vk::API_VERSION_1_3
}

impl View for Context {
    type V = ContextView;

    closed spec fn view(&self) -> ContextView {
        ContextView {
            windowed: self.windowed,
            required: self.required,
            stage: self.stage,
            acquired: self.acquired@,
            devices: self.physical_devices@,
            selection: self.selection,
            failure: self.failure,
        }
    }
}

impl Context {
    /// A context on which nothing has been done yet. `windowed` says whether
    /// it will present to a window; `required` holds the queue capabilities
    /// that the chosen family must have.
    pub fn new(windowed: bool, required: u32) -> (context: Context)
        ensures
            context@.wf(),
            context@ == (ContextView {
                windowed,
                required,
                stage: Stage::Unloaded,
                acquired: Seq::empty(),
                devices: Seq::empty(),
                selection: None,
                failure: None,
            }),
    {
        Context {
            windowed,
            required,
            stage: Stage::Unloaded,
            acquired: Vec::new(),
            physical_devices: Vec::new(),
            selection: None,
            failure: None,
        }
    }

    /// How far construction has come.
    pub fn stage(&self) -> (stage: Stage)
        ensures
            stage == self@.stage,
    {
        self.stage
    }

    /// Whether the logical device and its queue exist.
    pub fn is_ready(&self) -> (ready: bool)
        ensures
            ready == (self@.stage == Stage::Ready),
    {
        match self.stage {
            Stage::Ready => true,
            _ => false,
        }
    }

    /// Whether the context presents to a window.
    pub fn is_windowed(&self) -> (windowed: bool)
        ensures
            windowed == self@.windowed,
    {
        self.windowed
    }

    /// Why construction failed, if it did.
    pub fn failure(&self) -> (failure: Option<Error>)
        ensures
            failure == self@.failure,
    {
        self.failure
    }

    /// The chosen device and queue family, once they are chosen.
    pub fn selection(&self) -> (selection: Option<Selection>)
        ensures
            selection == self@.selection,
    {
        self.selection
    }

    /// The probed devices, in enumeration order.
    pub fn physical_devices(&self) -> (devices: &Vec<PhysicalDevice>)
        ensures
            devices@ == self@.devices,
    {
        &self.physical_devices
    }

    /// The driver objects that exist, in the order of their creation.
    pub fn acquired(&self) -> (acquired: &Vec<Resource>)
        ensures
            acquired@ == self@.acquired,
    {
        &self.acquired
    }

    /// The driver call that is due.
    pub fn next_step(&self) -> (step: Step)
        ensures
            step == self@.next_step(),
    {
        match self.stage {
            Stage::Unloaded => Step::LoadEntry,
            Stage::Loaded => Step::CreateInstance {
                api_version: api_version_1_3(),
                windowed: self.windowed,
            },
            Stage::InstanceReady => if self.windowed {
                Step::CreateSurface
            } else {
                Step::EnumerateDevices
            },
            Stage::SurfaceReady => Step::EnumerateDevices,
            Stage::Selected => match self.selection {
                Some(chosen) => Step::CreateDevice {
                    device: chosen.device,
                    family: chosen.family,
                    queues: 1,
                },
                None => Step::Idle,
            },
            Stage::Failed => Step::Teardown,
            Stage::Ready | Stage::Destroyed => Step::Idle,
        }
    }

    fn fail(&mut self, error: Error)
        requires
            old(self)@.wf(),
            old(self)@.stage != Stage::Ready,
            old(self)@.stage != Stage::Destroyed,
        ensures
            final(self)@ == old(self)@.fail(error),
            final(self)@.wf(),
    {
        self.stage = Stage::Failed;
        self.failure = Some(error);
    }

    fn acquire(&mut self, resource: Resource, stage: Stage)
        ensures
            final(self)@ == old(self)@.acquire(resource, stage),
    {
        self.acquired.push(resource);
        self.stage = stage;
    }

    /// Takes the driver's answer to the step that was due and moves the
    /// context on.
    pub fn advance(&mut self, event: Event) -> (result: Result<(), Error>)
        requires
            old(self)@.wf(),
        ensures
            final(self)@.wf(),
            old(self)@.advanced(event, final(self)@, result),
    {
        let step = self.next_step();
        match event {
            Event::Succeeded => match step {
                Step::LoadEntry => {
                    self.stage = Stage::Loaded;
                    Ok(())
                },
                Step::CreateInstance { .. } => {
                    self.acquire(Resource::Instance, Stage::InstanceReady);
                    Ok(())
                },
                Step::CreateSurface => {
                    self.acquire(Resource::Surface, Stage::SurfaceReady);
                    Ok(())
                },
                Step::CreateDevice { .. } => {
                    self.acquire(Resource::Device, Stage::Ready);
                    Ok(())
                },
                _ => Err(Error::InvalidState),
            },
            Event::Failed => match step {
                Step::Teardown | Step::Idle => Err(Error::InvalidState),
                Step::CreateSurface => {
                    self.fail(Error::SurfaceCreation);
                    Err(Error::SurfaceCreation)
                },
                _ => {
                    self.fail(Error::Initialization);
                    Err(Error::Initialization)
                },
            },
            Event::Enumerated(devices) => match step {
                Step::EnumerateDevices => {
                    let outcome = select_device(&devices, self.required, self.windowed);
                    self.physical_devices = devices;
                    match outcome {
                        Ok(chosen) => {
                            self.selection = Some(chosen);
                            self.stage = Stage::Selected;
                            Ok(())
                        },
                        Err(e) => {
                            self.fail(e);
                            Err(e)
                        },
                    }
                },
                _ => Err(Error::InvalidState),
            },
        }
    }

    /// Lists what has to be destroyed, in the order in which it has to be
    /// destroyed, and leaves the context with nothing: the reverse of the
    /// order of creation, so the device goes before the surface and the
    /// surface before the instance. It lists everything that exists, at
    /// whatever stage the context is, also after a failed construction.
    ///
    /// A context whose device carries an allocator and a command pool goes
    /// with them, through `resources::teardown_device`.
    pub fn teardown(&mut self) -> (trace: Vec<Resource>)
        requires
            old(self)@.wf(),
        ensures
            trace@ == old(self)@.acquired.reverse(),
            released_in_order(trace@),
            final(self)@ == (ContextView {
                stage: Stage::Destroyed,
                acquired: Seq::empty(),
                failure: None,
                ..old(self)@
            }),
            final(self)@.wf(),
    {
        let mut trace: Vec<Resource> = Vec::new();
        let mut left: usize = self.acquired.len();
        while left > 0
            invariant
                left <= self.acquired@.len(),
                trace@.len() == self.acquired@.len() - left,
                forall|k: int|
                    0 <= k < trace@.len() ==> trace@[k] == self.acquired@[self.acquired@.len() - 1
                        - k],
            decreases left,
        {
            left -= 1;
            trace.push(self.acquired[left]);
        }
        proof {
            lemma_teardown_order(self@);
        }
        self.acquired = Vec::new();
        self.stage = Stage::Destroyed;
        self.failure = None;
        trace
    }
}

/// Teardown order: whatever a context holds, releasing it in the reverse of
/// the order of creation destroys the device before the surface and the
/// surface before the instance.
pub proof fn lemma_teardown_order(context: ContextView)
    requires
        context.wf(),
    ensures
        released_in_order(context.acquired.reverse()),
{
}

/// In a trace that is released in order, a device comes before a surface,
/// a surface before an instance, and a device before an instance.
pub proof fn lemma_device_surface_instance(trace: Seq<Resource>, i: int, j: int)
    requires
        released_in_order(trace),
        0 <= i < trace.len(),
        0 <= j < trace.len(),
    ensures
        trace[i] == Resource::Device && trace[j] == Resource::Surface ==> i < j,
        trace[i] == Resource::Surface && trace[j] == Resource::Instance ==> i < j,
        trace[i] == Resource::Device && trace[j] == Resource::Instance ==> i < j,
{
}

} // verus!
