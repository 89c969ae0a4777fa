//! The frame orchestrator: what the control loop does in answer to each
//! window event and to each attempt to present a frame.
//!
//! The orchestrator owns the frame counter, the surface size and the zoom
//! level. It performs nothing itself: for every event it hands back the
//! actions to carry out, in the order in which they must be submitted.

use crate::buffers::binding_order_of;
use crate::camera::{steer_for, steering, zoom_after, Key, Steer, Zoom};
use crate::frame::{next_frame, read_index, read_slot, write_index, write_slot, FrameCounter};
use crate::surface::Acquisition;
use vstd::prelude::*;

verus! {

/// What the window reports to the control loop.
#[derive(Clone, Copy, Debug, PartialEq, Eq, Structural)]
pub enum Event {
    /// The user asked for the window to be closed.
    CloseRequested,
    /// A key went down (`pressed`) or came up.
    Keyboard { pressed: bool, key: Key },
    /// The window's drawable area has a new size in pixels.
    Resized { width: u32, height: u32 },
    /// The window wants its contents drawn.
    RedrawRequested,
    /// Anything else.
    Other,
}

/// One thing for the control loop to carry out.
#[derive(Clone, Copy, Debug, PartialEq, Eq, Structural)]
pub enum Action {
    /// The camera was steered. For a pan, move the offset by one step in
    /// the direction given; a zoom has already changed the zoom level.
    Steer(Steer),
    /// Write the camera's matrix into its uniform buffer.
    UploadCamera,
    /// Dispatch the compute pass with the binding order of this number.
    Simulate { bindings: usize },
    /// Configure the surface for this size and fit the camera's scale to it.
    Reconfigure { width: u32, height: u32 },
    /// Ask the window for another redraw.
    RequestRedraw,
    /// Acquire the next surface image, draw one instance per agent from the
    /// agent buffer in this slot, and present.
    Render { instances: usize },
    /// Leave the control loop.
    Exit,
}

/// How an event steers the camera, if it does.
pub open spec fn steering_of(event: Event) -> Option<Steer> {
    match event {
        Event::Keyboard { pressed, key } => steering(pressed, key),
        _ => None,
    }
}

/// The simulation step of a tick: the camera upload, then the compute pass
/// bound by the frame's parity. Frame 0 has none.
pub open spec fn refresh(frame: int) -> Seq<Action> {
    if frame == 0 {
        seq![]
    } else {
        seq![Action::UploadCamera, Action::Simulate { bindings: read_slot(frame) as usize }]
    }
}

/// Drawing a frame: the draw call reads the buffer that the frame writes.
/// Frame 0, which has no simulation step, uploads the camera here.
pub open spec fn draw(frame: int) -> Seq<Action> {
    let render = seq![Action::Render { instances: write_slot(frame) as usize }];
    if frame == 0 {
        seq![Action::UploadCamera] + render
    } else {
        render
    }
}

/// The surface is configured only for a size with no side of zero.
pub open spec fn reconfigure(width: u32, height: u32) -> Seq<Action> {
    if width > 0 && height > 0 {
        seq![Action::Reconfigure { width, height }]
    } else {
        seq![]
    }
}

/// What an event that does not steer the camera asks for, after the
/// simulation step.
pub open spec fn response(frame: int, configured: bool, event: Event) -> Seq<Action> {
    match event {
        Event::CloseRequested => seq![Action::Exit],
        Event::Keyboard { pressed, key } => if pressed && key == Key::Escape {
            seq![Action::Exit]
        } else {
            seq![]
        },
        Event::Resized { width, height } => reconfigure(width, height),
        Event::RedrawRequested => if configured {
            seq![Action::RequestRedraw] + draw(frame)
        } else {
            seq![Action::RequestRedraw]
        },
        Event::Other => seq![],
    }
}

/// The actions for one event at frame `frame`, in order. An event that
/// steers the camera does that and nothing else; any other event gets the
/// simulation step and then its own response.
pub open spec fn plan(frame: int, configured: bool, event: Event) -> Seq<Action> {
    match steering_of(event) {
        Some(steer) => seq![Action::Steer(steer)],
        None => refresh(frame) + response(frame, configured, event),
    }
}

/// Whether the surface counts as configured after an event: from the first
/// resize on, whatever its size.
pub open spec fn configured_after(configured: bool, event: Event) -> bool {
    configured || event is Resized
}

/// The surface size after an event: that of a resize with no side of zero.
pub open spec fn size_after(size: (u32, u32), event: Event) -> (u32, u32) {
    match event {
        Event::Resized { width, height } => if width > 0 && height > 0 {
            (width, height)
        } else {
            size
        },
        _ => size,
    }
}

/// The zoom level after an event.
pub open spec fn zoom_after_event(level: int, event: Event) -> int {
    match steering_of(event) {
        Some(steer) => zoom_after(level, steer),
        None => level,
    }
}

/// What follows an attempt to present a frame on a surface of size `size`.
/// A lost or outdated surface is configured again, running out of memory
/// ends the loop, and a timeout is let pass.
pub open spec fn follow_up(size: (u32, u32), outcome: Acquisition) -> Seq<Action> {
    match outcome {
        Acquisition::Presented => seq![],
        Acquisition::Lost | Acquisition::Outdated => reconfigure(size.0, size.1),
        Acquisition::OutOfMemory => seq![Action::Exit],
        Acquisition::Timeout => seq![],
    }
}

/// Every plan keeps the order on which the passes rely. A compute pass never
/// runs at frame 0, is bound by the frame's parity and comes directly after
/// a camera upload. A draw call happens only for a redraw on a configured
/// surface, reads the slot that the frame's compute pass writes, and comes
/// last, after a camera upload and, from frame 1 on, after the compute pass.
/// An event that steers the camera schedules no pass at all.
pub proof fn lemma_plan_is_ordered(frame: int, configured: bool, event: Event)
    requires
        0 <= frame,
    ensures
        steering_of(event) matches Some(steer) ==> plan(frame, configured, event) == seq![
            Action::Steer(steer),
        ],
        forall|i: int|
            0 <= i < plan(frame, configured, event).len() && plan(frame, configured, event)[i]
                is Simulate ==> {
                &&& frame != 0
                &&& plan(frame, configured, event)[i]->bindings == read_slot(frame)
                &&& i > 0
                &&& plan(frame, configured, event)[i - 1] == Action::UploadCamera
            },
        forall|i: int|
            0 <= i < plan(frame, configured, event).len() && plan(frame, configured, event)[i]
                is Render ==> {
                &&& configured
                &&& event is RedrawRequested
                &&& plan(frame, configured, event)[i]->instances == write_slot(frame)
                &&& i == plan(frame, configured, event).len() - 1
                &&& exists|j: int| 0 <= j < i && plan(frame, configured, event)[j] == Action::UploadCamera
                &&& frame != 0 ==> exists|j: int|
                    0 <= j < i && plan(frame, configured, event)[j] == (Action::Simulate {
                        bindings: read_slot(frame) as usize,
                    })
            },
{
    let actions = plan(frame, configured, event);
    if steering_of(event) is None {
        if event is RedrawRequested && configured {
            if frame == 0 {
                assert(actions =~= seq![
                    Action::RequestRedraw,
                    Action::UploadCamera,
                    Action::Render { instances: write_slot(frame) as usize },
                ]);
                assert(actions[1] == Action::UploadCamera);
            } else {
                assert(actions =~= seq![
                    Action::UploadCamera,
                    Action::Simulate { bindings: read_slot(frame) as usize },
                    Action::RequestRedraw,
                    Action::Render { instances: write_slot(frame) as usize },
                ]);
                assert(actions[0] == Action::UploadCamera);
                assert(actions[1] == Action::Simulate { bindings: read_slot(frame) as usize });
            }
        }
    }
}

/// From one presented frame to the next the buffers swap roles, on every
/// step of the counter: the binding order that the next frame selects reads
/// the slot that this frame drew from and writes the other one. Every next
/// frame but frame 0, which has no compute pass, dispatches with that order.
pub proof fn lemma_next_frame_reads_what_was_drawn(frame: int)
    requires
        0 <= frame <= usize::MAX,
    ensures
        draw(frame).last() == (Action::Render { instances: write_slot(frame) as usize }),
        read_slot(next_frame(frame)) == write_slot(frame),
        binding_order_of(read_slot(next_frame(frame))).input == write_slot(frame),
        binding_order_of(read_slot(next_frame(frame))).output == read_slot(frame),
        next_frame(frame) != 0 ==> refresh(next_frame(frame)) == seq![
            Action::UploadCamera,
            Action::Simulate { bindings: write_slot(frame) as usize },
        ],
{
    crate::frame::lemma_advance_swaps(frame);
    if next_frame(frame) != 0 {
        assert(refresh(next_frame(frame)) =~= seq![
            Action::UploadCamera,
            Action::Simulate { bindings: write_slot(frame) as usize },
        ]);
    }
}

/// The state of the control loop between events.
pub struct Orchestrator {
    frame: FrameCounter,
    configured: bool,
    width: u32,
    height: u32,
    zoom: Zoom,
}

impl Orchestrator {
    /// The number of the current frame.
    pub closed spec fn frame(&self) -> int {
        self.frame.value()
    }

    /// Whether a resize has been seen, so that frames may be drawn.
    pub closed spec fn configured(&self) -> bool {
        self.configured
    }

    /// The width and height of the surface in pixels.
    pub closed spec fn size(&self) -> (u32, u32) {
        (self.width, self.height)
    }

    /// The zoom level in quarters of a unit.
    pub closed spec fn zoom(&self) -> int {
        self.zoom.level()
    }

    /// The state at startup for a window of the given size: frame 0, no
    /// resize seen yet, the zoom at its starting level.
    pub fn new(width: u32, height: u32) -> (state: Orchestrator)
        ensures
            state.frame() == 0,
            !state.configured(),
            state.size() == (width, height),
            state.zoom() == crate::camera::ZOOM_START,
    {
        Orchestrator { frame: FrameCounter::new(), configured: false, width, height, zoom: Zoom::new() }
    }

    /// The number of the current frame.
    pub fn frame_count(&self) -> (frame: usize)
        ensures
            frame == self.frame(),
            0 <= self.frame() <= usize::MAX,
    {
        self.frame.get()
    }

    /// Whether a resize has been seen.
    pub fn is_configured(&self) -> (configured: bool)
        ensures
            configured == self.configured(),
    {
        self.configured
    }

    /// The width and height of the surface in pixels.
    pub fn surface_size(&self) -> (size: (u32, u32))
        ensures
            size == self.size(),
    {
        (self.width, self.height)
    }

    /// The zoom level in quarters of a unit, never below the floor.
    pub fn zoom_quarters(&self) -> (quarters: u32)
        ensures
            quarters == self.zoom(),
            crate::camera::ZOOM_FLOOR <= quarters <= crate::camera::ZOOM_CEILING,
    {
        self.zoom.quarters()
    }

    /// Takes one window event and hands back what to do about it, in order.
    /// The frame counter does not move: only a presented frame counts.
    pub fn on_event(&mut self, event: Event) -> (actions: Vec<Action>)
        ensures
            actions@ == plan(old(self).frame(), old(self).configured(), event),
            final(self).frame() == old(self).frame(),
            final(self).configured() == configured_after(old(self).configured(), event),
            final(self).size() == size_after(old(self).size(), event),
            final(self).zoom() == zoom_after_event(old(self).zoom(), event),
    {
        let mut actions: Vec<Action> = Vec::new();
        if let Event::Keyboard { pressed, key } = event {
            if let Some(steer) = steer_for(pressed, key) {
                self.zoom.apply(steer);
                actions.push(Action::Steer(steer));
                assert(actions@ =~= seq![Action::Steer(steer)]);
                return actions;
            }
        }
        let frame = self.frame.get();
        if frame != 0 {
            actions.push(Action::UploadCamera);
            actions.push(Action::Simulate { bindings: read_index(frame) });
        }
        assert(actions@ =~= refresh(frame as int));
        match event {
            Event::CloseRequested => {
                actions.push(Action::Exit);
            },
            Event::Keyboard { pressed, key } => {
                if pressed && key == Key::Escape {
                    actions.push(Action::Exit);
                }
            },
            Event::Resized { width, height } => {
                self.configured = true;
                if width > 0 && height > 0 {
                    self.width = width;
                    self.height = height;
                    actions.push(Action::Reconfigure { width, height });
                }
            },
            Event::RedrawRequested => {
                actions.push(Action::RequestRedraw);
                if self.configured {
                    if frame == 0 {
                        actions.push(Action::UploadCamera);
                    }
                    actions.push(Action::Render { instances: write_index(frame) });
                }
            },
            Event::Other => {},
        }
        assert(actions@ =~= refresh(frame as int) + response(
            frame as int,
            old(self).configured(),
            event,
        ));
        actions
    }

    /// Takes the outcome of the last attempt to present a frame and hands
    /// back what to do about it. A presented frame moves the counter on,
    /// wrapping, so that the slot just drawn from is the next to be read; no
    /// other outcome moves it.
    pub fn on_outcome(&mut self, outcome: Acquisition) -> (actions: Vec<Action>)
        ensures
            actions@ == follow_up(old(self).size(), outcome),
            final(self).frame() == if outcome is Presented {
                next_frame(old(self).frame())
            } else {
                old(self).frame()
            },
            outcome is Presented ==> final(self).frame() == if old(self).frame() == usize::MAX {
                0
            } else {
                old(self).frame() + 1
            },
            outcome is Presented ==> read_slot(final(self).frame()) == write_slot(
                old(self).frame(),
            ),
            final(self).configured() == old(self).configured(),
            final(self).size() == old(self).size(),
            final(self).zoom() == old(self).zoom(),
    {
        let mut actions: Vec<Action> = Vec::new();
        match outcome {
            Acquisition::Presented => {
                self.frame.advance();
            },
            Acquisition::Lost | Acquisition::Outdated => {
                if self.width > 0 && self.height > 0 {
                    actions.push(Action::Reconfigure { width: self.width, height: self.height });
                }
            },
            Acquisition::OutOfMemory => {
                actions.push(Action::Exit);
            },
            Acquisition::Timeout => {},
        }
        assert(actions@ =~= follow_up(old(self).size(), outcome));
        actions
    }
}

} // verus!
