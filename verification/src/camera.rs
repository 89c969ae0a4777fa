//! How the keyboard steers the camera.
//!
//! The camera's pan offset is a pair of real numbers and is kept by the
//! caller. What is decided here is discrete: which key steers the camera in
//! which way, and the zoom level, which moves in quarter units between a
//! floor and a ceiling.

use vstd::prelude::*;

verus! {

/// The keys that the control loop tells apart.
#[derive(Clone, Copy, Debug, PartialEq, Eq, Structural)]
pub enum Key {
    KeyW,
    KeyS,
    KeyA,
    KeyD,
    ArrowUp,
    ArrowDown,
    ArrowLeft,
    ArrowRight,
    KeyE,
    KeyQ,
    Escape,
    /// Any other key, identified or not.
    Other,
}

/// One nudge of the camera.
#[derive(Clone, Copy, Debug, PartialEq, Eq, Structural)]
pub enum Steer {
    Up,
    Down,
    Right,
    Left,
    ZoomIn,
    ZoomOut,
}

/// The lowest zoom level: half a unit. Levels are counted in quarters of a
/// unit.
pub const ZOOM_FLOOR: u32 = 2;

/// The zoom level of a new camera: ten units.
pub const ZOOM_START: u32 = 40;

/// The highest zoom level. A single-precision number holds every quarter
/// count up to this one exactly and none beyond it that is odd, so a further
/// quarter step would be lost to rounding.
pub const ZOOM_CEILING: u32 = 0x100_0000;

/// How the camera is steered by a key that goes down (`pressed`) or comes up.
/// Only a key that goes down steers: W, S, D and A or the arrows pan, E and
/// Q zoom.
pub open spec fn steering(pressed: bool, key: Key) -> Option<Steer> {
    if !pressed {
        None
    } else {
        match key {
            Key::KeyW | Key::ArrowUp => Some(Steer::Up),
            Key::KeyS | Key::ArrowDown => Some(Steer::Down),
            Key::KeyD | Key::ArrowRight => Some(Steer::Right),
            Key::KeyA | Key::ArrowLeft => Some(Steer::Left),
            Key::KeyE => Some(Steer::ZoomIn),
            Key::KeyQ => Some(Steer::ZoomOut),
            Key::Escape | Key::Other => None,
        }
    }
}

/// The direction of a pan in whole steps along the two axes; a zoom does not
/// pan.
pub open spec fn pan_of(steer: Steer) -> (int, int) {
    match steer {
        Steer::Up => (0, 1),
        Steer::Down => (0, -1),
        Steer::Right => (1, 0),
        Steer::Left => (-1, 0),
        Steer::ZoomIn | Steer::ZoomOut => (0, 0),
    }
}

/// The zoom level, in quarters, after one nudge at level `level`.
pub open spec fn zoom_after(level: int, steer: Steer) -> int {
    match steer {
        Steer::ZoomIn => if level < ZOOM_CEILING { level + 1 } else { level },
        Steer::ZoomOut => if level > ZOOM_FLOOR { level - 1 } else { level },
        _ => level,
    }
}

/// The key that undoes the pan of `key`; a key that does not pan is its own.
pub open spec fn opposite_key(key: Key) -> Key {
    match key {
        Key::KeyW => Key::KeyS,
        Key::KeyS => Key::KeyW,
        Key::KeyA => Key::KeyD,
        Key::KeyD => Key::KeyA,
        Key::ArrowUp => Key::ArrowDown,
        Key::ArrowDown => Key::ArrowUp,
        Key::ArrowLeft => Key::ArrowRight,
        Key::ArrowRight => Key::ArrowLeft,
        _ => key,
    }
}

/// How a key event steers the camera, if it does.
pub fn steer_for(pressed: bool, key: Key) -> (steer: Option<Steer>)
    ensures
        steer == steering(pressed, key),
{
    if !pressed {
        return None;
    }
    match key {
        Key::KeyW | Key::ArrowUp => Some(Steer::Up),
        Key::KeyS | Key::ArrowDown => Some(Steer::Down),
        Key::KeyD | Key::ArrowRight => Some(Steer::Right),
        Key::KeyA | Key::ArrowLeft => Some(Steer::Left),
        Key::KeyE => Some(Steer::ZoomIn),
        Key::KeyQ => Some(Steer::ZoomOut),
        Key::Escape | Key::Other => None,
    }
}

impl Steer {
    /// The direction of this nudge in whole pan steps along the two axes.
    pub fn direction(self) -> (step: (i8, i8))
        ensures
            (step.0 as int, step.1 as int) == pan_of(self),
    {
        match self {
            Steer::Up => (0, 1),
            Steer::Down => (0, -1),
            Steer::Right => (1, 0),
            Steer::Left => (-1, 0),
            Steer::ZoomIn | Steer::ZoomOut => (0, 0),
        }
    }
}

/// The camera's zoom level, a whole number of quarters.
#[derive(Clone, Copy, Debug)]
pub struct Zoom {
    quarters: u32,
}

impl Zoom {
    #[verifier::type_invariant]
    spec fn in_range(self) -> bool {
        ZOOM_FLOOR <= self.quarters <= ZOOM_CEILING
    }

    /// The level in quarters of a unit.
    pub closed spec fn level(self) -> int {
        self.quarters as int
    }

    /// The zoom of a new camera.
    pub fn new() -> (zoom: Zoom)
        ensures
            zoom.level() == ZOOM_START,
    {
        Zoom { quarters: ZOOM_START }
    }

    /// The level in quarters of a unit; never below the floor, so never zero.
    pub fn quarters(&self) -> (quarters: u32)
        ensures
            quarters == self.level(),
            ZOOM_FLOOR <= quarters <= ZOOM_CEILING,
    {
        proof {
            use_type_invariant(self);
        }
        self.quarters
    }

    /// Applies one nudge: a quarter up or down for a zoom, held at the floor
    /// and at the ceiling; nothing for a pan.
    pub fn apply(&mut self, steer: Steer)
        ensures
            final(self).level() == zoom_after(old(self).level(), steer),
    {
        proof {
            use_type_invariant(&*self);
        }
        match steer {
            Steer::ZoomIn => {
                if self.quarters < ZOOM_CEILING {
                    self.quarters = self.quarters + 1;
                }
            },
            Steer::ZoomOut => {
                if self.quarters > ZOOM_FLOOR {
                    self.quarters = self.quarters - 1;
                }
            },
            _ => {},
        }
    }
}

/// A zoom level within its range stays there under every nudge, and a nudge
/// downwards at the floor leaves it at the floor.
pub proof fn lemma_zoom_stays_in_range(level: int, steer: Steer)
    requires
        ZOOM_FLOOR <= level <= ZOOM_CEILING,
    ensures
        ZOOM_FLOOR <= zoom_after(level, steer) <= ZOOM_CEILING,
        zoom_after(ZOOM_FLOOR as int, Steer::ZoomOut) == ZOOM_FLOOR,
        zoom_after(level, Steer::ZoomOut) == if level == ZOOM_FLOOR { level } else { level - 1 },
{
}

/// The two keys of a pan axis cancel: a key that pans and its opposite move
/// by one step each in opposed directions, and neither changes the zoom
/// level, by which the length of a step is set.
pub proof fn lemma_opposite_pans_cancel(key: Key, level: int)
    requires
        steering(true, key) is Some,
        pan_of(steering(true, key)->0) != (0int, 0int),
    ensures
        steering(true, opposite_key(key)) is Some,
        opposite_key(opposite_key(key)) == key,
        pan_of(steering(true, key)->0).0 + pan_of(steering(true, opposite_key(key))->0).0 == 0,
        pan_of(steering(true, key)->0).1 + pan_of(steering(true, opposite_key(key))->0).1 == 0,
        zoom_after(level, steering(true, key)->0) == level,
        zoom_after(level, steering(true, opposite_key(key))->0) == level,
{
}

} // verus!
