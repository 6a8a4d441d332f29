//! Command buffers and fences: recording, submission and waiting for
//! completion.

use crate::error::Error;
use vstd::prelude::*;

verus! {

/// Where a command buffer stands in its life cycle.
#[derive(Debug, Clone, Copy, PartialEq, Eq, Structural)]
pub enum BufferState {
    /// Allocated and empty; recording may begin.
    Initial,
    /// Recording has begun and has not ended.
    Recording,
    /// Recording has ended; the buffer may be submitted.
    Executable,
    /// Submitted; its completion has not been observed yet.
    Pending,
    /// No buffer of this pool.
    Invalid,
}

/// A recorded command: fill `size` bytes of `buffer` from `offset` on with
/// the four little-endian bytes of `value`, over and over.
#[derive(Debug, Clone, Copy, PartialEq, Eq, Structural)]
pub struct FillCommand {
    pub buffer: u64,
    pub offset: u64,
    pub size: u64,
    pub value: u32,
}

/// Names a command buffer of an executor's pool by its position.
#[derive(Debug, Clone, Copy, PartialEq, Eq, Structural)]
pub struct CommandBufferHandle(pub usize);

/// Names a fence of an executor by its position.
#[derive(Debug, Clone, Copy, PartialEq, Eq, Structural)]
pub struct FenceHandle(pub usize);

/// How a wait ended.
#[derive(Debug, Clone, Copy, PartialEq, Eq, Structural)]
pub enum WaitOutcome {
    /// The fence is signaled: the submission has completed.
    Completed,
    /// The fence was not signaled. Not an error: the work still runs, and
    /// the caller may wait again.
    TimedOut,
    /// The wait could not be made.
    Error(Error),
}

impl WaitOutcome {
    /// The outcome as a result: a completed wait is `Ok`, a wait that timed
    /// out is the retryable `WaitTimeout`, and an error is itself.
    pub open spec fn spec_into_result(self) -> Result<(), Error> {
        match self {
            WaitOutcome::Completed => Ok(()),
            WaitOutcome::TimedOut => Err(Error::WaitTimeout),
            WaitOutcome::Error(e) => Err(e),
        }
    }

    /// The outcome as a result, so that a caller can pass it on with `?`.
    #[verifier::when_used_as_spec(spec_into_result)]
    pub fn into_result(self) -> (result: Result<(), Error>)
        ensures
            result == self.spec_into_result(),
    {
        match self {
            WaitOutcome::Completed => Ok(()),
            WaitOutcome::TimedOut => Err(Error::WaitTimeout),
            WaitOutcome::Error(e) => Err(e),
        }
    }
}

#[derive(Debug)]
struct Slot {
    state: BufferState,
    commands: Vec<FillCommand>,
    fence: usize,
}

#[derive(Debug, Clone, Copy)]
struct Fence {
    signaled: bool,
    buffer: usize,
}

/// A command pool with its command buffers and the fences of its
/// submissions.
///
/// The device runs beside the host. What it has done reaches the executor
/// through `signal`, which the program calls when the driver reports a
/// fence as signaled.
#[derive(Debug)]
pub struct CommandExecutor {
    slots: Vec<Slot>,
    fences: Vec<Fence>,
}

/// What a command buffer is, for contracts.
pub struct BufferView {
    pub state: BufferState,
    /// The commands recorded so far, in the order of recording.
    pub commands: Seq<FillCommand>,
    /// Position of the fence of the buffer's latest submission. It means
    /// something only while the buffer is pending.
    pub fence: int,
}

/// What a fence is, for contracts.
pub struct FenceView {
    pub signaled: bool,
    /// Position of the command buffer whose submission the fence belongs to.
    pub buffer: int,
}

/// What an executor is, for contracts.
pub struct ExecutorView {
    pub buffers: Seq<BufferView>,
    pub fences: Seq<FenceView>,
}

impl ExecutorView {
    /// The state of the buffer that a handle names; `Invalid` where it names
    /// none.
    pub open spec fn state_of(self, handle: CommandBufferHandle) -> BufferState {
        if handle.0 < self.buffers.len() {
            self.buffers[handle.0 as int].state
        } else {
            BufferState::Invalid
        }
    }

    /// The fence belongs to the submission that its buffer is pending on.
    pub open spec fn is_attached(self, fence: int) -> bool {
        &&& 0 <= fence < self.fences.len()
        &&& 0 <= self.fences[fence].buffer < self.buffers.len()
        &&& self.buffers[self.fences[fence].buffer].state == BufferState::Pending
        &&& self.buffers[self.fences[fence].buffer].fence == fence
    }

    /// No buffer of the pool is `Invalid`, a buffer in its initial state is
    /// empty, every pending buffer has its fence, every fence names a
    /// buffer, and a fence that is not signaled yet is attached to its
    /// buffer's pending submission.
    pub open spec fn wf(self) -> bool {
        &&& self.buffers.len() <= usize::MAX
        &&& self.fences.len() <= usize::MAX
        &&& forall|i: int|
            0 <= i < self.buffers.len() ==> {
                let b = #[trigger] self.buffers[i];
                &&& b.state != BufferState::Invalid
                &&& b.state == BufferState::Initial ==> b.commands.len() == 0
                &&& b.state == BufferState::Pending ==> 0 <= b.fence < self.fences.len()
                    && self.fences[b.fence].buffer == i
            }
        &&& forall|f: int|
            0 <= f < self.fences.len() ==> {
                let fence = #[trigger] self.fences[f];
                &&& 0 <= fence.buffer < self.buffers.len()
                &&& !fence.signaled ==> self.is_attached(f)
            }
    }

    /// The buffer at `index` is pending on a fence that the device has not
    /// signaled yet: its work may still run.
    pub open spec fn is_in_flight(self, index: int) -> bool {
        &&& 0 <= index < self.buffers.len()
        &&& self.buffers[index].state == BufferState::Pending
        &&& 0 <= self.buffers[index].fence < self.fences.len()
        &&& !self.fences[self.buffers[index].fence].signaled
    }

    /// Some submission may still run on the device.
    pub open spec fn is_busy(self) -> bool {
        exists|index: int| self.is_in_flight(index)
    }

    /// The executor with the buffer at `index` replaced.
    pub open spec fn with_buffer(self, index: int, buffer: BufferView) -> ExecutorView {
        ExecutorView { buffers: self.buffers.update(index, buffer), ..self }
    }

    /// `handle` is the buffer that `begin_recording` takes: the first one in
    /// its initial state, or a new one behind the last where there is none.
    pub open spec fn is_next_free(self, handle: CommandBufferHandle) -> bool {
        &&& handle.0 <= self.buffers.len()
        &&& handle.0 < self.buffers.len() ==> self.buffers[handle.0 as int].state
            == BufferState::Initial
        &&& forall|i: int|
            0 <= i < handle.0 ==> (#[trigger] self.buffers[i]).state != BufferState::Initial
    }

    /// The executor after `begin_recording` took `handle`.
    pub open spec fn begin(self, handle: CommandBufferHandle) -> ExecutorView {
        if handle.0 < self.buffers.len() {
            self.with_buffer(
                handle.0 as int,
                BufferView { state: BufferState::Recording, ..self.buffers[handle.0 as int] },
            )
        } else {
            ExecutorView {
                buffers: self.buffers.push(
                    BufferView { state: BufferState::Recording, commands: Seq::empty(), fence: 0 },
                ),
                ..self
            }
        }
    }

    /// Recording a fill: legal only while the buffer is recording.
    pub open spec fn fill(self, handle: CommandBufferHandle, command: FillCommand) -> (
        ExecutorView,
        Result<(), Error>,
    ) {
        if self.state_of(handle) == BufferState::Recording {
            let old = self.buffers[handle.0 as int];
            (
                self.with_buffer(
                    handle.0 as int,
                    BufferView { commands: old.commands.push(command), ..old },
                ),
                Ok(()),
            )
        } else {
            (self, Err(Error::InvalidState))
        }
    }

    /// Ending the recording: legal only while the buffer is recording.
    pub open spec fn end(self, handle: CommandBufferHandle) -> (ExecutorView, Result<(), Error>) {
        if self.state_of(handle) == BufferState::Recording {
            let old = self.buffers[handle.0 as int];
            (
                self.with_buffer(
                    handle.0 as int,
                    BufferView { state: BufferState::Executable, ..old },
                ),
                Ok(()),
            )
        } else {
            (self, Err(Error::InvalidState))
        }
    }

    /// Submitting: legal only on an executable buffer. The buffer becomes
    /// pending on a new fence, which is not signaled.
    pub open spec fn submit(self, handle: CommandBufferHandle) -> (
        ExecutorView,
        Result<FenceHandle, Error>,
    ) {
        if self.state_of(handle) == BufferState::Executable {
            let old = self.buffers[handle.0 as int];
            let fence = self.fences.len();
            (
                ExecutorView {
                    buffers: self.buffers.update(
                        handle.0 as int,
                        BufferView {
                            state: BufferState::Pending,
                            fence: fence as int,
                            ..old
                        },
                    ),
                    fences: self.fences.push(
                        FenceView { signaled: false, buffer: handle.0 as int },
                    ),
                },
                Ok(FenceHandle(fence as usize)),
            )
        } else {
            (self, Err(Error::InvalidState))
        }
    }

    /// The device signals a fence. A signaled fence stays signaled.
    pub open spec fn signal(self, fence: FenceHandle) -> (ExecutorView, Result<(), Error>) {
        if fence.0 < self.fences.len() {
            let old = self.fences[fence.0 as int];
            (
                ExecutorView {
                    fences: self.fences.update(
                        fence.0 as int,
                        FenceView { signaled: true, ..old },
                    ),
                    ..self
                },
                Ok(()),
            )
        } else {
            (self, Err(Error::InvalidState))
        }
    }

    /// Waiting on a fence.
    ///
    /// On a signaled fence the wait completes, and the buffer that is
    /// pending on it returns to its initial state, empty. On a fence that is
    /// not signaled the wait times out and nothing changes. A handle that
    /// names no fence is an `InvalidState` error.
    pub open spec fn wait(self, fence: FenceHandle) -> (ExecutorView, WaitOutcome) {
        if fence.0 >= self.fences.len() {
            (self, WaitOutcome::Error(Error::InvalidState))
        } else if !self.fences[fence.0 as int].signaled {
            (self, WaitOutcome::TimedOut)
        } else if self.is_attached(fence.0 as int) {
            let buffer = self.fences[fence.0 as int].buffer;
            (
                self.with_buffer(
                    buffer,
                    BufferView {
                        state: BufferState::Initial,
                        commands: Seq::empty(),
                        ..self.buffers[buffer]
                    },
                ),
                WaitOutcome::Completed,
            )
        } else {
            (self, WaitOutcome::Completed)
        }
    }
}

impl View for Slot {
    type V = BufferView;

    closed spec fn view(&self) -> BufferView {
        BufferView { state: self.state, commands: self.commands@, fence: self.fence as int }
    }
}

impl View for Fence {
    type V = FenceView;

    closed spec fn view(&self) -> FenceView {
        FenceView { signaled: self.signaled, buffer: self.buffer as int }
    }
}

impl View for CommandExecutor {
    type V = ExecutorView;

    closed spec fn view(&self) -> ExecutorView {
        ExecutorView {
            buffers: Seq::new(self.slots@.len(), |i: int| self.slots@[i]@),
            fences: Seq::new(self.fences@.len(), |i: int| self.fences@[i]@),
        }
    }
}

impl CommandExecutor {
    /// An executor with an empty pool and no fence.
    pub fn new() -> (executor: CommandExecutor)
        ensures
            executor@.wf(),
            executor@.buffers.len() == 0,
            executor@.fences.len() == 0,
    {
        CommandExecutor { slots: Vec::new(), fences: Vec::new() }
    }

    /// The state of the buffer that a handle names.
    pub fn state(&self, handle: CommandBufferHandle) -> (state: BufferState)
        ensures
            state == self@.state_of(handle),
    {
        if handle.0 < self.slots.len() {
            self.slots[handle.0].state
        } else {
            BufferState::Invalid
        }
    }

    /// The commands recorded in a buffer, in the order of recording; `None`
    /// where the handle names no buffer.
    pub fn commands(&self, handle: CommandBufferHandle) -> (recorded: Option<&Vec<FillCommand>>)
        ensures
            match recorded {
                Some(commands) => handle.0 < self@.buffers.len() && commands@
                    == self@.buffers[handle.0 as int].commands,
                None => handle.0 >= self@.buffers.len(),
            },
    {
        if handle.0 < self.slots.len() {
            Some(&self.slots[handle.0].commands)
        } else {
            None
        }
    }

    /// Whether a fence is signaled; `None` where the handle names no fence.
    pub fn is_signaled(&self, fence: FenceHandle) -> (signaled: Option<bool>)
        ensures
            match signaled {
                Some(s) => fence.0 < self@.fences.len() && s == self@.fences[fence.0 as int].signaled,
                None => fence.0 >= self@.fences.len(),
            },
    {
        if fence.0 < self.fences.len() {
            Some(self.fences[fence.0].signaled)
        } else {
            None
        }
    }

    /// Whether some submission may still run on the device: whether a
    /// command buffer is pending on a fence that is not signaled.
    pub fn is_busy(&self) -> (busy: bool)
        requires
            self@.wf(),
        ensures
            busy == self@.is_busy(),
    {
        let mut i: usize = 0;
        while i < self.slots.len()
            invariant
                self@.wf(),
                i <= self.slots@.len(),
                forall|k: int| 0 <= k < i ==> !self@.is_in_flight(k),
            decreases self.slots@.len() - i,
        {
            assert(self@.buffers[i as int] == self.slots@[i as int]@);
            match self.slots[i].state {
                BufferState::Pending => {
                    let fence = self.slots[i].fence;
                    if !self.fences[fence].signaled {
                        assert(self@.is_in_flight(i as int));
                        return true;
                    }
                },
                _ => {},
            }
            i += 1;
        }
        false
    }

    /// Takes a command buffer and begins recording into it: the first buffer
    /// of the pool that is in its initial state, or a new one where there is
    /// none.
    pub fn begin_recording(&mut self) -> (handle: CommandBufferHandle)
        requires
            old(self)@.wf(),
        ensures
            final(self)@.wf(),
            old(self)@.is_next_free(handle),
            final(self)@ == old(self)@.begin(handle),
            final(self)@.state_of(handle) == BufferState::Recording,
            final(self)@.buffers[handle.0 as int].commands.len() == 0,
    {
        let mut i: usize = 0;
        while i < self.slots.len()
            invariant
                self@ == old(self)@,
                self@.wf(),
                i <= self.slots@.len(),
                forall|k: int| 0 <= k < i ==> (#[trigger] self@.buffers[k]).state != BufferState::Initial,
            decreases self.slots@.len() - i,
        {
            match self.slots[i].state {
                BufferState::Initial => {
                    self.slots[i].state = BufferState::Recording;
                    proof {
                        assert(final(self)@.buffers =~= old(self)@.begin(
                            CommandBufferHandle(i),
                        ).buffers);
                    }
                    return CommandBufferHandle(i);
                },
                _ => {},
            }
            i += 1;
        }
        self.slots.push(Slot { state: BufferState::Recording, commands: Vec::new(), fence: 0 });
        assert(self.slots.len() <= usize::MAX);
        proof {
            assert(final(self)@.buffers =~= old(self)@.begin(CommandBufferHandle(i)).buffers);
        }
        CommandBufferHandle(i)
    }

    /// Records a fill of `size` bytes of `buffer`, from `offset` on, with
    /// `value`. Legal only while the command buffer is recording; otherwise
    /// it fails with `InvalidState` and records nothing.
    pub fn fill_buffer(
        &mut self,
        handle: CommandBufferHandle,
        buffer: u64,
        offset: u64,
        size: u64,
        value: u32,
    ) -> (result: Result<(), Error>)
        requires
            old(self)@.wf(),
        ensures
            final(self)@.wf(),
            (final(self)@, result) == old(self)@.fill(
                handle,
                FillCommand { buffer, offset, size, value },
            ),
    {
        match self.state(handle) {
            BufferState::Recording => {
                self.slots[handle.0].commands.push(FillCommand { buffer, offset, size, value });
                proof {
                    let expected = old(self)@.fill(
                        handle,
                        FillCommand { buffer, offset, size, value },
                    ).0;
                    assert(final(self)@.buffers =~= expected.buffers);
                }
                Ok(())
            },
            _ => Err(Error::InvalidState),
        }
    }

    /// Ends the recording. Legal only while the command buffer is recording;
    /// otherwise it fails with `InvalidState` and changes nothing. A
    /// recording without commands may be ended like any other.
    pub fn end_recording(&mut self, handle: CommandBufferHandle) -> (result: Result<(), Error>)
        requires
            old(self)@.wf(),
        ensures
            final(self)@.wf(),
            (final(self)@, result) == old(self)@.end(handle),
    {
        match self.state(handle) {
            BufferState::Recording => {
                self.slots[handle.0].state = BufferState::Executable;
                proof {
                    let expected = old(self)@.end(handle).0;
                    assert(final(self)@.buffers =~= expected.buffers);
                }
                Ok(())
            },
            _ => Err(Error::InvalidState),
        }
    }

    /// Submits a command buffer. Legal only on an executable buffer, which
    /// becomes pending; the result is a new fence, not signaled, that
    /// belongs to this submission. On any other buffer it fails with
    /// `InvalidState` and changes nothing.
    pub fn submit(&mut self, handle: CommandBufferHandle) -> (result: Result<FenceHandle, Error>)
        requires
            old(self)@.wf(),
        ensures
            final(self)@.wf(),
            (final(self)@, result) == old(self)@.submit(handle),
    {
        match self.state(handle) {
            BufferState::Executable => {
                let fence = self.fences.len();
                self.fences.push(Fence { signaled: false, buffer: handle.0 });
                assert(self.fences.len() <= usize::MAX);
                self.slots[handle.0].state = BufferState::Pending;
                self.slots[handle.0].fence = fence;
                proof {
                    let expected = old(self)@.submit(handle).0;
                    assert(final(self)@.buffers =~= expected.buffers);
                    assert(final(self)@.fences =~= expected.fences);
                }
                Ok(FenceHandle(fence))
            },
            _ => Err(Error::InvalidState),
        }
    }

    /// Takes note that the device has signaled a fence. A handle that names
    /// no fence is refused with `InvalidState`.
    pub fn signal(&mut self, fence: FenceHandle) -> (result: Result<(), Error>)
        requires
            old(self)@.wf(),
        ensures
            final(self)@.wf(),
            (final(self)@, result) == old(self)@.signal(fence),
    {
        if fence.0 < self.fences.len() {
            self.fences[fence.0].signaled = true;
            proof {
                let expected = old(self)@.signal(fence).0;
                assert(final(self)@.fences =~= expected.fences);
            }
            Ok(())
        } else {
            Err(Error::InvalidState)
        }
    }

    /// Waits on a fence for at most `timeout` nanoseconds.
    ///
    /// The device makes no progress inside this call: what it has done
    /// arrives through `signal`. So the wait completes exactly when the
    /// fence is signaled already, and times out otherwise, whatever the
    /// timeout; the program blocks on the driver before it calls. A
    /// completed wait returns the fence's command buffer to its initial
    /// state. A wait that timed out changes nothing: the fence can still be
    /// signaled, and a later wait then completes.
    pub fn wait(&mut self, fence: FenceHandle, timeout: u64) -> (outcome: WaitOutcome)
        requires
            old(self)@.wf(),
        ensures
            final(self)@.wf(),
            (final(self)@, outcome) == old(self)@.wait(fence),
    {
        if fence.0 >= self.fences.len() {
            return WaitOutcome::Error(Error::InvalidState);
        }
        let entry = self.fences[fence.0];
        if !entry.signaled {
            return WaitOutcome::TimedOut;
        }
        let buffer = entry.buffer;
        assert(0 <= self@.fences[fence.0 as int].buffer < self@.buffers.len());
        let attached = match self.slots[buffer].state {
            BufferState::Pending => self.slots[buffer].fence == fence.0,
            _ => false,
        };
        if attached {
            self.slots[buffer].state = BufferState::Initial;
            self.slots[buffer].commands = Vec::new();
            proof {
                let expected = old(self)@.wait(fence).0;
                assert(final(self)@.buffers =~= expected.buffers);
            }
        }
        WaitOutcome::Completed
    }
}

/// A fill is refused on every buffer that is not recording: one that was
/// never begun, one whose recording has ended, one that is pending, and a
/// handle that names no buffer.
pub proof fn lemma_fill_needs_recording(
    executor: ExecutorView,
    handle: CommandBufferHandle,
    command: FillCommand,
)
    requires
        executor.state_of(handle) != BufferState::Recording,
    ensures
        executor.fill(handle, command) == (executor, Err::<(), Error>(Error::InvalidState)),
{
}

/// After its recording has ended a buffer takes no fill.
pub proof fn lemma_fill_after_end(
    executor: ExecutorView,
    handle: CommandBufferHandle,
    command: FillCommand,
)
    requires
        executor.end(handle).1 is Ok,
    ensures
        executor.end(handle).0.fill(handle, command).1 == Err::<(), Error>(Error::InvalidState),
{
}

/// A buffer whose recording has not ended cannot be submitted: the attempt
/// fails with `InvalidState` and changes nothing.
pub proof fn lemma_submit_needs_end(executor: ExecutorView, handle: CommandBufferHandle)
    requires
        executor.state_of(handle) != BufferState::Executable,
    ensures
        executor.submit(handle) == (executor, Err::<FenceHandle, Error>(Error::InvalidState)),
{
}

/// A buffer that was just begun takes fills, and cannot be submitted before
/// its recording has ended; once it has ended, the buffer can be submitted.
pub proof fn lemma_recording_life_cycle(
    executor: ExecutorView,
    handle: CommandBufferHandle,
    command: FillCommand,
)
    requires
        executor.wf(),
        executor.is_next_free(handle),
    ensures
        executor.begin(handle).fill(handle, command).1 is Ok,
        executor.begin(handle).submit(handle).1 == Err::<FenceHandle, Error>(Error::InvalidState),
        executor.begin(handle).end(handle).1 is Ok,
        executor.begin(handle).end(handle).0.submit(handle).1 is Ok,
{
}

/// A wait on a fence that is not signaled times out, which is no error, and
/// changes nothing, whatever the timeout. The fence can still be signaled
/// afterwards, and the next wait then completes.
pub proof fn lemma_wait_times_out(executor: ExecutorView, fence: FenceHandle)
    requires
        fence.0 < executor.fences.len(),
        !executor.fences[fence.0 as int].signaled,
    ensures
        executor.wait(fence) == (executor, WaitOutcome::TimedOut),
        executor.wait(fence).0.signal(fence).1 is Ok,
        executor.wait(fence).0.signal(fence).0.wait(fence).1 == WaitOutcome::Completed,
{
}

/// Submit, signal, wait: the wait completes and the buffer is back in its
/// initial state, empty and ready to be recorded again.
pub proof fn lemma_completion_frees_buffer(executor: ExecutorView, handle: CommandBufferHandle)
    requires
        executor.wf(),
        executor.state_of(handle) == BufferState::Executable,
    ensures
        ({
            let (submitted, fence) = executor.submit(handle);
            let (signaled, _) = submitted.signal(fence->Ok_0);
            let (done, outcome) = signaled.wait(fence->Ok_0);
            &&& fence is Ok
            &&& submitted.state_of(handle) == BufferState::Pending
            &&& outcome == WaitOutcome::Completed
            &&& done.state_of(handle) == BufferState::Initial
            &&& done.buffers[handle.0 as int].commands.len() == 0
        }),
{
}

} // verus!
