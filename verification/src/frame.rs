//! Frame numbers and the roles of the two agent buffers.
//!
//! The parity of the frame number alone decides which buffer a frame reads
//! and which it writes.

use vstd::prelude::*;

verus! {

/// Slot of the buffer that frame `frame` reads.
pub open spec fn read_slot(frame: int) -> int {
    frame % 2
}

/// Slot of the buffer that frame `frame` writes, and that its draw call reads.
pub open spec fn write_slot(frame: int) -> int {
    1 - read_slot(frame)
}

/// The frame number that follows `frame`: one more, and zero after the
/// largest machine word.
pub open spec fn next_frame(frame: int) -> int {
    (frame + 1) % (usize::MAX + 1)
}

/// Slot (0 or 1) of the buffer that the compute pass of `frame` reads.
pub fn read_index(frame: usize) -> (slot: usize)
    ensures
        slot == read_slot(frame as int),
        slot < 2,
{
    frame % 2
}

/// Slot (0 or 1) of the buffer that the compute pass of `frame` writes and
/// that the render pass of the same frame draws from.
pub fn write_index(frame: usize) -> (slot: usize)
    ensures
        slot == write_slot(frame as int),
        slot < 2,
        slot != read_slot(frame as int),
{
    1 - frame % 2
}

/// A frame never reads the buffer it writes, and each frame reads the buffer
/// that the frame before it wrote.
pub proof fn lemma_slots_alternate(frame: int)
    requires
        0 <= frame,
    ensures
        0 <= read_slot(frame) < 2,
        0 <= write_slot(frame) < 2,
        read_slot(frame) != write_slot(frame),
        read_slot(frame + 1) == write_slot(frame),
        write_slot(frame + 1) == read_slot(frame),
{
}

/// Counts the frames that have been presented.
pub struct FrameCounter {
    count: usize,
}

impl FrameCounter {
    /// The number of the current frame.
    pub closed spec fn value(self) -> int {
        self.count as int
    }

    /// A counter at frame zero.
    pub fn new() -> (counter: FrameCounter)
        ensures
            counter.value() == 0,
    {
        FrameCounter { count: 0 }
    }

    /// A counter at frame `frame`.
    pub fn at(frame: usize) -> (counter: FrameCounter)
        ensures
            counter.value() == frame,
    {
        FrameCounter { count: frame }
    }

    /// The number of the current frame.
    pub fn get(&self) -> (frame: usize)
        ensures
            frame == self.value(),
    {
        self.count
    }

    /// Moves on to the next frame, wrapping round to zero after the largest
    /// machine word. The roles of the two buffers swap on every step.
    pub fn advance(&mut self)
        ensures
            final(self).value() == next_frame(old(self).value()),
            final(self).value() == if old(self).value() == usize::MAX {
                0
            } else {
                old(self).value() + 1
            },
            read_slot(final(self).value()) == write_slot(old(self).value()),
            write_slot(final(self).value()) == read_slot(old(self).value()),
    {
        proof {
            lemma_advance_swaps(self.count as int);
        }
        self.count = self.count.wrapping_add(1);
    }
}

/// Advancing the counter swaps the roles of the two buffers on every step,
/// the one that wraps round to zero included: the next frame reads the
/// buffer that this frame wrote, and writes the one that it read.
pub proof fn lemma_advance_swaps(frame: int)
    requires
        0 <= frame <= usize::MAX,
    ensures
        0 <= next_frame(frame) <= usize::MAX,
        next_frame(frame) == if frame == usize::MAX {
            0
        } else {
            frame + 1
        },
        read_slot(next_frame(frame)) == write_slot(frame),
        write_slot(next_frame(frame)) == read_slot(frame),
{
    let modulus = usize::MAX + 1;
    if frame == usize::MAX {
        vstd::arithmetic::div_mod::lemma_mod_self_0(modulus);
    } else {
        vstd::arithmetic::div_mod::lemma_small_mod((frame + 1) as nat, modulus as nat);
    }
}

} // verus!
