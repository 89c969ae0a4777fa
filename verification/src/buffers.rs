//! The pair of agent buffers, and the two orders in which a compute pass can
//! be bound to them.

use crate::frame::{read_index, read_slot, write_index, write_slot};
use vstd::prelude::*;

verus! {

/// Two resources of one kind that swap roles from frame to frame: the agent
/// buffers themselves, or what was prepared once for each of them.
pub struct BufferPair<T> {
    first: T,
    second: T,
}

/// Which buffer a compute pass takes as its read-only input and which as its
/// output.
#[derive(Clone, Copy, Debug, PartialEq, Eq, Structural)]
pub struct BindingOrder {
    pub input: usize,
    pub output: usize,
}

/// The binding order with number `order`: order 0 reads slot 0 and writes
/// slot 1, order 1 the reverse.
pub open spec fn binding_order_of(order: int) -> BindingOrder {
    BindingOrder { input: read_slot(order) as usize, output: write_slot(order) as usize }
}

/// The binding order with number `order`, as it is set up once at startup
/// for each of the two numbers.
pub fn binding_order(order: usize) -> (bindings: BindingOrder)
    ensures
        bindings == binding_order_of(order as int),
        bindings.input < 2,
        bindings.output < 2,
        bindings.input != bindings.output,
{
    BindingOrder { input: read_index(order), output: write_index(order) }
}

/// The binding order that a frame selects by its parity reads the frame's
/// source buffer and writes its destination: no buffer is bound as both.
pub proof fn lemma_selected_order_fits_frame(frame: int)
    requires
        0 <= frame,
    ensures
        binding_order_of(read_slot(frame)).input == read_slot(frame),
        binding_order_of(read_slot(frame)).output == write_slot(frame),
        binding_order_of(read_slot(frame)).input != binding_order_of(read_slot(frame)).output,
{
}

impl<T> BufferPair<T> {
    /// The two members, slot 0 first.
    pub closed spec fn view(&self) -> Seq<T> {
        seq![self.first, self.second]
    }

    /// A pair of `first` in slot 0 and `second` in slot 1.
    pub fn new(first: T, second: T) -> (pair: BufferPair<T>)
        ensures
            pair@ == seq![first, second],
    {
        BufferPair { first, second }
    }

    /// The member in slot `index`.
    pub fn slot(&self, index: usize) -> (member: &T)
        requires
            index < 2,
        ensures
            self@.len() == 2,
            *member == self@[index as int],
    {
        if index == 0 {
            &self.first
        } else {
            &self.second
        }
    }

    /// The member that frame `frame` reads.
    pub fn source(&self, frame: usize) -> (member: &T)
        ensures
            self@.len() == 2,
            *member == self@[read_slot(frame as int)],
    {
        self.slot(read_index(frame))
    }

    /// The member that frame `frame` writes and then draws from.
    pub fn destination(&self, frame: usize) -> (member: &T)
        ensures
            self@.len() == 2,
            *member == self@[write_slot(frame as int)],
    {
        self.slot(write_index(frame))
    }

    /// Puts `member` in the slot that frame `frame` writes and hands back
    /// what was there. The other slot, which the frame reads, is untouched.
    pub fn replace_destination(&mut self, frame: usize, member: T) -> (previous: T)
        ensures
            final(self)@ == old(self)@.update(write_slot(frame as int), member),
            previous == old(self)@[write_slot(frame as int)],
            final(self)@[read_slot(frame as int)] == old(self)@[read_slot(frame as int)],
    {
        let mut held = member;
        if write_index(frame) == 0 {
            std::mem::swap(&mut self.first, &mut held);
            assert(self@ =~= old(self)@.update(0, member));
        } else {
            std::mem::swap(&mut self.second, &mut held);
            assert(self@ =~= old(self)@.update(1, member));
        }
        held
    }
}

} // verus!
