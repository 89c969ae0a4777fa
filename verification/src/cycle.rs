//! What carrying out a plan does to the two agent buffers.
//!
//! The buffers live on the device, and the compute kernel is no part of this
//! crate. Both are modelled here: a buffer by its contents, whatever they
//! are, and the kernel by a function from the contents of the buffer that a
//! pass reads to the contents of the buffer that it writes.

use crate::buffers::binding_order_of;
use crate::frame::{lemma_advance_swaps, next_frame, read_slot, write_slot};
use crate::orchestrator::{plan, Action, Event};
use vstd::prelude::*;

verus! {

/// The contents of the two buffers after one action. Only a compute pass
/// changes them: it overwrites the output of its binding order with what
/// the kernel makes of the input.
pub open spec fn after_action<T>(buffers: Seq<T>, action: Action, kernel: spec_fn(T) -> T) -> Seq<
    T,
> {
    match action {
        Action::Simulate { bindings } => {
            let order = binding_order_of(bindings as int);
            buffers.update(order.output as int, kernel(buffers[order.input as int]))
        },
        _ => buffers,
    }
}

/// The contents of the two buffers after a run of actions, in order.
pub open spec fn after_actions<T>(
    buffers: Seq<T>,
    actions: Seq<Action>,
    kernel: spec_fn(T) -> T,
) -> Seq<T>
    decreases actions.len(),
{
    if actions.len() == 0 {
        buffers
    } else {
        after_actions(after_action(buffers, actions[0], kernel), actions.drop_first(), kernel)
    }
}

/// What the draw calls in a run of actions read, one entry for each draw
/// call: the contents of its instance buffer at the time of the call.
pub open spec fn drawn_by<T>(buffers: Seq<T>, actions: Seq<Action>, kernel: spec_fn(T) -> T) -> Seq<
    T,
>
    decreases actions.len(),
{
    if actions.len() == 0 {
        seq![]
    } else {
        let rest = drawn_by(
            after_action(buffers, actions[0], kernel),
            actions.drop_first(),
            kernel,
        );
        match actions[0] {
            Action::Render { instances } => seq![buffers[instances as int]] + rest,
            _ => rest,
        }
    }
}

/// The actions of one full frame cycle: a redraw on a configured surface.
pub open spec fn cycle(frame: int) -> Seq<Action> {
    plan(frame, true, Event::RedrawRequested)
}

/// The frame number after `cycles` presented frames.
pub open spec fn frame_after(frame: int, cycles: nat) -> int
    decreases cycles,
{
    if cycles == 0 {
        frame
    } else {
        frame_after(next_frame(frame), (cycles - 1) as nat)
    }
}

/// The contents of the two buffers after `cycles` full frame cycles, each
/// presented, the first of them at frame `frame`.
pub open spec fn after_cycles<T>(
    buffers: Seq<T>,
    frame: int,
    cycles: nat,
    kernel: spec_fn(T) -> T,
) -> Seq<T>
    decreases cycles,
{
    if cycles == 0 {
        buffers
    } else {
        after_cycles(
            after_actions(buffers, cycle(frame), kernel),
            next_frame(frame),
            (cycles - 1) as nat,
            kernel,
        )
    }
}

/// One frame cycle writes nothing at frame 0 and otherwise only the buffer
/// that the frame writes, which gets what the kernel makes of the buffer
/// that the frame reads. Its one draw call reads the buffer that the frame
/// writes, after the compute pass.
pub proof fn lemma_cycle_effect<T>(buffers: Seq<T>, frame: int, kernel: spec_fn(T) -> T)
    requires
        buffers.len() == 2,
        0 <= frame <= usize::MAX,
    ensures
        after_actions(buffers, cycle(frame), kernel) == if frame == 0 {
            buffers
        } else {
            buffers.update(write_slot(frame), kernel(buffers[read_slot(frame)]))
        },
        after_actions(buffers, cycle(frame), kernel).len() == 2,
        after_actions(buffers, cycle(frame), kernel)[read_slot(frame)] == buffers[read_slot(frame)],
        drawn_by(buffers, cycle(frame), kernel) == seq![
            after_actions(buffers, cycle(frame), kernel)[write_slot(frame)],
        ],
{
    let render = Action::Render { instances: write_slot(frame) as usize };
    if frame == 0 {
        let actions = seq![Action::RequestRedraw, Action::UploadCamera, render];
        assert(cycle(frame) =~= actions);
        assert(actions.drop_first() =~= seq![Action::UploadCamera, render]);
        assert(actions.drop_first().drop_first() =~= seq![render]);
        assert(seq![render].drop_first() =~= Seq::<Action>::empty());
        reveal_with_fuel(after_actions, 4);
        reveal_with_fuel(drawn_by, 4);
        assert(drawn_by(buffers, actions, kernel) =~= seq![buffers[write_slot(frame)]]);
    } else {
        let simulate = Action::Simulate { bindings: read_slot(frame) as usize };
        let actions = seq![Action::UploadCamera, simulate, Action::RequestRedraw, render];
        let written = buffers.update(write_slot(frame), kernel(buffers[read_slot(frame)]));
        assert(cycle(frame) =~= actions);
        assert(actions.drop_first() =~= seq![simulate, Action::RequestRedraw, render]);
        assert(actions.drop_first().drop_first() =~= seq![Action::RequestRedraw, render]);
        assert(actions.drop_first().drop_first().drop_first() =~= seq![render]);
        assert(seq![render].drop_first() =~= Seq::<Action>::empty());
        assert(after_action(buffers, simulate, kernel) == written);
        reveal_with_fuel(after_actions, 5);
        reveal_with_fuel(drawn_by, 5);
        assert(drawn_by(buffers, actions, kernel) =~= seq![written[write_slot(frame)]]);
    }
}

/// With a kernel that passes its input through, two buffers that start out
/// with the same contents keep them through any number of frame cycles from
/// any frame on, and every draw call reads exactly those contents.
pub proof fn lemma_pass_through_keeps_flock<T>(
    flock: T,
    frame: int,
    cycles: nat,
    kernel: spec_fn(T) -> T,
)
    requires
        0 <= frame <= usize::MAX,
        forall|contents: T| #[trigger] kernel(contents) == contents,
    ensures
        0 <= frame_after(frame, cycles) <= usize::MAX,
        after_cycles(seq![flock, flock], frame, cycles, kernel) == seq![flock, flock],
        drawn_by(
            after_cycles(seq![flock, flock], frame, cycles, kernel),
            cycle(frame_after(frame, cycles)),
            kernel,
        ) == seq![flock],
    decreases cycles,
{
    let buffers = seq![flock, flock];
    if cycles == 0 {
        lemma_cycle_effect(buffers, frame, kernel);
    } else {
        lemma_cycle_effect(buffers, frame, kernel);
        lemma_advance_swaps(frame);
        assert(after_actions(buffers, cycle(frame), kernel) =~= buffers);
        lemma_pass_through_keeps_flock(flock, next_frame(frame), (cycles - 1) as nat, kernel);
    }
}

} // verus!
