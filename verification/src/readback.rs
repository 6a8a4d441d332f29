//! The one-shot path: fill a buffer on the device, wait, and read it back.

use crate::command::{
    BufferState, CommandBufferHandle, CommandExecutor, ExecutorView, FenceHandle, FillCommand,
};
use crate::error::Error;
use crate::fill::{
    cells_of, filled, le_bytes, lemma_fill_round_trip, pack_rgba, packed_rgba, ran, run_commands,
};
use crate::memory::{AllocatorView, MemoryAllocator, MemoryLocation};
use vstd::prelude::*;

verus! {

/// Usage bit of a buffer: it can be the destination of a transfer, which a
/// fill is.
pub const BUFFER_USAGE_TRANSFER_DST: u32 = 0x2;

/// How the bytes of an image are to be read.
#[derive(Debug, Clone, Copy, PartialEq, Eq, Structural)]
pub enum PixelFormat {
    /// Four bytes per pixel: red, green, blue, alpha.
    Rgba8,
}

/// A raw image as it is handed to whatever persists it: the pixels row by
/// row, in the given format.
#[derive(Debug, Clone, PartialEq, Eq)]
pub struct Image {
    pub width: u32,
    pub height: u32,
    pub format: PixelFormat,
    pub bytes: Vec<u8>,
}

/// What buffer creation is asked for.
#[derive(Debug, Clone, Copy, PartialEq, Eq, Structural)]
pub struct BufferRequest {
    /// Size of the buffer in bytes.
    pub size: u64,
    /// Usage bits of the buffer.
    pub usage: u32,
}

/// The executor after one submission of a single command has run its whole
/// course on the buffer `handle`: begun, recorded, ended, submitted,
/// signaled by the device, and waited for.
pub open spec fn after_one_shot(
    executor: ExecutorView,
    handle: CommandBufferHandle,
    command: FillCommand,
) -> ExecutorView {
    let recorded = executor.begin(handle).fill(handle, command).0.end(handle).0;
    let fence = FenceHandle(executor.fences.len() as usize);
    recorded.submit(handle).0.signal(fence).0.wait(fence).0
}

/// The size in bytes of an image of four bytes per pixel.
pub open spec fn image_size(width: u32, height: u32) -> int {
    4 * (width * height)
}

/// The buffer that holds an image of `width` by `height` pixels while it is
/// filled: four bytes per pixel, usable as the destination of a transfer.
/// An image whose bytes the host cannot address is refused with
/// `Allocation`.
pub fn buffer_request(width: u32, height: u32) -> (request: Result<BufferRequest, Error>)
    ensures
        request == if image_size(width, height) <= usize::MAX {
            Ok::<BufferRequest, Error>(
                BufferRequest {
                    size: image_size(width, height) as u64,
                    usage: BUFFER_USAGE_TRANSFER_DST,
                },
            )
        } else {
            Err::<BufferRequest, Error>(Error::Allocation)
        },
{
    assert(width * height <= 0xffff_ffff * 0xffff_ffff) by (nonlinear_arith)
        requires
            width <= 0xffff_ffff,
            height <= 0xffff_ffff,
    ;
    let pixels: u64 = width as u64 * height as u64;
    if pixels > (usize::MAX / 4) as u64 {
        Err(Error::Allocation)
    } else {
        Ok(BufferRequest { size: pixels * 4, usage: BUFFER_USAGE_TRANSFER_DST })
    }
}

/// A buffer of `len` zero bytes.
fn zeroed(len: usize) -> (memory: Vec<u8>)
    ensures
        memory@.len() == len,
        forall|i: int| 0 <= i < len ==> memory@[i] == 0,
{
    let mut memory: Vec<u8> = Vec::new();
    while memory.len() < len
        invariant
            memory@.len() <= len,
            forall|i: int| 0 <= i < memory@.len() ==> memory@[i] == 0,
        decreases len - memory@.len(),
    {
        memory.push(0);
    }
    memory
}

/// Fills an image of `width` by `height` pixels with one colour on the
/// device and reads it back.
///
/// A host-visible buffer of four bytes per pixel is allocated for the
/// resource `buffer`, whose admissible memory types are `type_bits`. One
/// command buffer is recorded with a fill of the whole buffer, submitted,
/// run and waited for. Then the mapped memory is read, and the allocation
/// is freed again.
///
/// It fails, and changes nothing, where the image does not fit the address
/// space (`Allocation`) and where the allocator refuses the request, with
/// the allocator's error.
pub fn fill_and_read_back(
    allocator: &mut MemoryAllocator,
    executor: &mut CommandExecutor,
    buffer: u64,
    type_bits: u32,
    width: u32,
    height: u32,
    red: u8,
    green: u8,
    blue: u8,
    alpha: u8,
) -> (result: Result<Image, Error>)
    requires
        old(allocator)@.wf(),
        old(executor)@.wf(),
    ensures
        final(allocator)@.wf(),
        final(executor)@.wf(),
        match result {
            Ok(image) => {
                let value = packed_rgba(red, green, blue, alpha);
                let size = image_size(width, height) as u64;
                &&& image_size(width, height) <= usize::MAX
                &&& old(allocator)@.grantable(
                    buffer,
                    size,
                    type_bits,
                    MemoryLocation::HostVisibleCoherent,
                )
                &&& image.width == width
                &&& image.height == height
                &&& image.format == PixelFormat::Rgba8
                &&& image.bytes@ == cells_of(value, (width * height) as nat)
                &&& forall|pixel: int|
                    0 <= pixel < width * height ==> (#[trigger] image.bytes@.subrange(
                        4 * pixel,
                        4 * pixel + 4,
                    )) == seq![red, green, blue, alpha]
                &&& final(allocator)@ == (AllocatorView {
                    issued: old(allocator)@.issued + 1,
                    ..old(allocator)@
                })
                &&& exists|handle: CommandBufferHandle|
                    {
                        &&& old(executor)@.is_next_free(handle)
                        &&& final(executor)@ == after_one_shot(
                            old(executor)@,
                            handle,
                            FillCommand { buffer, offset: 0, size, value },
                        )
                        &&& final(executor)@.state_of(handle) == BufferState::Initial
                    }
            },
            Err(e) => {
                &&& final(allocator)@ == old(allocator)@
                &&& final(executor)@ == old(executor)@
                &&& if image_size(width, height) > usize::MAX {
                    e == Error::Allocation
                } else {
                    old(allocator)@.allocated(
                        buffer,
                        image_size(width, height) as u64,
                        type_bits,
                        MemoryLocation::HostVisibleCoherent,
                        old(allocator)@,
                        Err(e),
                    )
                }
            },
        },
{
    let value = pack_rgba(red, green, blue, alpha);
    let size = buffer_request(width, height)?.size;
    let allocation = allocator.allocate(
        buffer,
        size,
        type_bits,
        MemoryLocation::HostVisibleCoherent,
    )?;
    let mut memory = zeroed(size as usize);
    let ghost before = memory@;
    let ghost pixels = width * height;

    let handle = executor.begin_recording();
    executor.fill_buffer(handle, buffer, 0, size, value)?;
    executor.end_recording(handle)?;
    let fence = executor.submit(handle)?;

    // The device takes the submission, runs it and signals the fence.
    if let Some(commands) = executor.commands(handle) {
        proof {
            assert(ran(commands@.skip(1), buffer, filled(before, 0, size as int, value)) == (
                filled(before, 0, size as int, value),
                true,
            ));
            assert(ran(commands@, buffer, before) == (filled(before, 0, size as int, value), true));
        }
        run_commands(commands, buffer, &mut memory)?;
    }
    executor.signal(fence)?;

    executor.wait(fence, u64::MAX).into_result()?;
    allocator.free(allocation)?;
    proof {
        assert(final(allocator)@.live =~= old(allocator)@.live);
        lemma_fill_round_trip(before, pixels as nat, value);
        assert forall|pixel: int| 0 <= pixel < pixels implies (#[trigger] memory@.subrange(
            4 * pixel,
            4 * pixel + 4,
        )) == seq![red, green, blue, alpha] by {
            assert(cells_of(value, pixels as nat).subrange(4 * pixel, 4 * pixel + 4) == le_bytes(
                value,
            ));
        }
    }
    Ok(Image { width, height, format: PixelFormat::Rgba8, bytes: memory })
}

} // verus!
