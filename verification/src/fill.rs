//! What a fill does to the memory of a buffer, and the pixels that come
//! back from it.

use crate::command::FillCommand;
use crate::error::Error;
use vstd::prelude::*;

verus! {

/// A pixel as the fill value that stands for it: red in the lowest byte,
/// then green, blue and alpha.
pub open spec fn packed_rgba(red: u8, green: u8, blue: u8, alpha: u8) -> u32 {
    (red as u32) | ((green as u32) << 8) | ((blue as u32) << 16) | ((alpha as u32) << 24)
}

/// Byte `k` of the little-endian form of `value`, for `k` from 0 to 3.
pub open spec fn le_byte(value: u32, k: int) -> u8 {
    if k == 0 {
        (value % 0x100) as u8
    } else if k == 1 {
        (value / 0x100 % 0x100) as u8
    } else if k == 2 {
        (value / 0x1_0000 % 0x100) as u8
    } else {
        (value / 0x100_0000 % 0x100) as u8
    }
}

/// The four little-endian bytes of `value`.
pub open spec fn le_bytes(value: u32) -> Seq<u8> {
    seq![le_byte(value, 0), le_byte(value, 1), le_byte(value, 2), le_byte(value, 3)]
}

/// Memory after a fill: from `offset` on, `size` bytes hold the
/// little-endian bytes of `value`, over and over, starting with the lowest;
/// every other byte is as before.
pub open spec fn filled(before: Seq<u8>, offset: int, size: int, value: u32) -> Seq<u8> {
    Seq::new(
        before.len(),
        |i: int|
            if offset <= i < offset + size {
                le_byte(value, (i - offset) % 4)
            } else {
                before[i]
            },
    )
}

/// `count` cells that each hold the little-endian bytes of `value`.
pub open spec fn cells_of(value: u32, count: nat) -> Seq<u8> {
    Seq::new(4 * count, |i: int| le_byte(value, i % 4))
}

/// Memory after the device has run `commands` on the buffer `target`, in
/// the order of recording, and whether it ran them all. Commands on other
/// buffers leave the memory alone. The device stops at the first fill that
/// reaches beyond the buffer.
pub open spec fn ran(commands: Seq<FillCommand>, target: u64, memory: Seq<u8>) -> (Seq<u8>, bool)
    decreases commands.len(),
{
    if commands.len() == 0 {
        (memory, true)
    } else {
        let first = commands[0];
        if first.buffer != target {
            ran(commands.skip(1), target, memory)
        } else if first.offset + first.size > memory.len() {
            (memory, false)
        } else {
            ran(
                commands.skip(1),
                target,
                filled(memory, first.offset as int, first.size as int, first.value),
            )
        }
    }
}

/// Packs a pixel into the fill value that stands for it.
pub fn pack_rgba(red: u8, green: u8, blue: u8, alpha: u8) -> (value: u32)
    ensures
        value == packed_rgba(red, green, blue, alpha),
        le_bytes(value) == seq![red, green, blue, alpha],
{
    let value = (red as u32) | ((green as u32) << 8) | ((blue as u32) << 16) | ((alpha as u32)
        << 24);
    proof {
        lemma_packed_bytes(red, green, blue, alpha);
    }
    value
}

/// Byte `k` of the little-endian form of `value`.
pub fn byte_of(value: u32, k: usize) -> (byte: u8)
    requires
        k < 4,
    ensures
        byte == le_byte(value, k as int),
{
    if k == 0 {
        (value % 0x100) as u8
    } else if k == 1 {
        (value / 0x100 % 0x100) as u8
    } else if k == 2 {
        (value / 0x1_0000 % 0x100) as u8
    } else {
        (value / 0x100_0000 % 0x100) as u8
    }
}

/// Runs one fill on the memory of a buffer, as the device does. A fill that
/// reaches beyond the buffer fails with `Submission` and writes nothing.
pub fn fill_bytes(memory: &mut Vec<u8>, offset: u64, size: u64, value: u32) -> (result: Result<
    (),
    Error,
>)
    ensures
        match result {
            Ok(()) => offset + size <= old(memory)@.len() && final(memory)@ == filled(
                old(memory)@,
                offset as int,
                size as int,
                value,
            ),
            Err(e) => {
                &&& e == Error::Submission
                &&& offset + size > old(memory)@.len()
                &&& final(memory)@ == old(memory)@
            },
        },
{
    let len = memory.len() as u64;
    if offset > len || size > len - offset {
        return Err(Error::Submission);
    }
    let mut done: u64 = 0;
    while done < size
        invariant
            done <= size,
            offset + size <= len,
            len == memory@.len(),
            memory@.len() == old(memory)@.len(),
            memory@ == filled(old(memory)@, offset as int, done as int, value),
        decreases size - done,
    {
        let byte = byte_of(value, (done % 4) as usize);
        assert(offset + done < memory.len());
        let at = (offset + done) as usize;
        memory[at] = byte;
        done += 1;
        assert forall|i: int| 0 <= i < memory@.len() implies memory@[i] == filled(
            old(memory)@,
            offset as int,
            done as int,
            value,
        )[i] by {}
    }
    Ok(())
}

/// Runs the commands of a submission on the memory of the buffer `target`,
/// as the device does: in the order of recording, skipping commands on other
/// buffers. At the first fill that reaches beyond the buffer it stops and
/// fails with `Submission`; what ran before stays written.
pub fn run_commands(commands: &Vec<FillCommand>, target: u64, memory: &mut Vec<u8>) -> (result:
    Result<(), Error>)
    ensures
        final(memory)@ == ran(commands@, target, old(memory)@).0,
        result == if ran(commands@, target, old(memory)@).1 {
            Ok::<(), Error>(())
        } else {
            Err::<(), Error>(Error::Submission)
        },
{
    let mut next: usize = 0;
    assert(commands@.skip(0) =~= commands@);
    while next < commands.len()
        invariant
            next <= commands@.len(),
            ran(commands@, target, old(memory)@) == ran(commands@.skip(next as int), target, memory@),
        decreases commands@.len() - next,
    {
        let command = commands[next];
        let ghost rest = commands@.skip(next as int);
        assert(rest.skip(1) =~= commands@.skip(next + 1));
        if command.buffer == target {
            match fill_bytes(memory, command.offset, command.size, command.value) {
                Ok(()) => {},
                Err(e) => {
                    return Err(e);
                },
            }
        }
        next += 1;
    }
    Ok(())
}

/// Whether a mapped region holds nothing but cells of `value`: its length is
/// a multiple of four and each cell reads as the little-endian bytes of
/// `value`.
pub fn holds_cells(bytes: &Vec<u8>, value: u32) -> (holds: bool)
    ensures
        holds <==> bytes@.len() % 4 == 0 && bytes@ == cells_of(value, (bytes@.len() / 4) as nat),
{
    if bytes.len() % 4 != 0 {
        return false;
    }
    let mut i: usize = 0;
    while i < bytes.len()
        invariant
            i <= bytes@.len(),
            bytes@.len() % 4 == 0,
            forall|k: int| 0 <= k < i ==> bytes@[k] == le_byte(value, k % 4),
        decreases bytes@.len() - i,
    {
        if bytes[i] != byte_of(value, i % 4) {
            return false;
        }
        i += 1;
    }
    assert(bytes@ =~= cells_of(value, (bytes@.len() / 4) as nat));
    true
}

/// The little-endian bytes of a packed pixel are its red, green, blue and
/// alpha, in this order.
pub proof fn lemma_packed_bytes(red: u8, green: u8, blue: u8, alpha: u8)
    ensures
        le_bytes(packed_rgba(red, green, blue, alpha)) == seq![red, green, blue, alpha],
{
    assert(((red as u32) | ((green as u32) << 8) | ((blue as u32) << 16) | ((alpha as u32) << 24))
        % 0x100 == red) by (bit_vector);
    assert(((red as u32) | ((green as u32) << 8) | ((blue as u32) << 16) | ((alpha as u32) << 24))
        / 0x100 % 0x100 == green) by (bit_vector);
    assert(((red as u32) | ((green as u32) << 8) | ((blue as u32) << 16) | ((alpha as u32) << 24))
        / 0x1_0000 % 0x100 == blue) by (bit_vector);
    assert(((red as u32) | ((green as u32) << 8) | ((blue as u32) << 16) | ((alpha as u32) << 24))
        / 0x100_0000 % 0x100 == alpha) by (bit_vector);
}

/// Round trip: after a buffer of `count` four-byte cells is filled whole
/// with `value`, whatever it held before, it reads as `count` repetitions of
/// the little-endian bytes of `value`.
pub proof fn lemma_fill_round_trip(before: Seq<u8>, count: nat, value: u32)
    requires
        before.len() == 4 * count,
    ensures
        filled(before, 0, 4 * count as int, value) == cells_of(value, count),
        forall|cell: int|
            0 <= cell < count ==> (#[trigger] cells_of(value, count).subrange(
                4 * cell,
                4 * cell + 4,
            )) == le_bytes(value),
{
    assert forall|cell: int| 0 <= cell < count implies (#[trigger] cells_of(value, count).subrange(
        4 * cell,
        4 * cell + 4,
    )) == le_bytes(value) by {
        let part = cells_of(value, count).subrange(4 * cell, 4 * cell + 4);
        assert(part =~= le_bytes(value));
    }
}

} // verus!
