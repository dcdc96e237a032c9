//! What a controller sees of its entity during one tick, and what it can ask
//! for.
//!
//! A controller decides; it does not move anything itself. The caller fills
//! a [`Frame`] with what the entity senses, runs the controller on it, and
//! then carries out the [`Order`]s that the controller left in the frame, in
//! their order.

use crate::input::ButtonsState;
use vstd::prelude::*;

verus! {

/// An animation that an entity can play.
#[derive(Debug, Clone, Copy, PartialEq, Eq, Structural)]
pub enum Clip {
    /// Standing still.
    Idle,
    /// Running.
    Run,
}

/// Something that a controller asks to be done to its entity. Speeds are in
/// pixels per second, lengths in pixels.
#[derive(Debug, Clone, Copy, PartialEq, Eq, Structural)]
pub enum Order {
    /// Play the animation from its start.
    Animate(Clip),
    /// Set the vertical velocity to this value; up is negative.
    Launch(i32),
    /// Ease the horizontal velocity towards `target`: of the distance to the
    /// target, the part `2^(-rate * t)` is left after `t` seconds.
    Steer { target: i64, rate: u32 },
    /// Set a horizontal velocity that is slower than one pixel per second to
    /// zero.
    Settle,
    /// Limit the upward velocity: a vertical velocity below this value is
    /// raised to it.
    CapRise(i32),
    /// File a hurt request for a box of the given half extents, centred
    /// `reach` pixels to the right of the entity, against the colliders of
    /// the categories in `mask`.
    Strike { reach: i32, half_width: u32, half_height: u32, mask: u32 },
}

/// One tick of one entity, as its controller sees it.
pub struct Frame {
    /// The buttons, sampled for this tick.
    pub buttons: ButtonsState,
    /// Whether the entity's ground sensor touches ground.
    pub on_ground: bool,
    /// Whether the entity moves downwards.
    pub descending: bool,
    /// Whether the entity faces left. Controllers turn the entity around by
    /// changing this.
    pub face_left: bool,
    /// The orders of this tick, first to last.
    pub orders: Vec<Order>,
}

/// What a [`Frame`] holds, with the orders as a sequence.
pub struct FrameView {
    pub buttons: ButtonsState,
    pub on_ground: bool,
    pub descending: bool,
    pub face_left: bool,
    pub orders: Seq<Order>,
}

impl View for Frame {
    type V = FrameView;

    open spec fn view(&self) -> FrameView {
        FrameView {
            buttons: self.buttons,
            on_ground: self.on_ground,
            descending: self.descending,
            face_left: self.face_left,
            orders: self.orders@,
        }
    }
}

impl FrameView {
    /// The frame with one more order.
    pub open spec fn with(self, order: Order) -> FrameView {
        FrameView { orders: self.orders.push(order), ..self }
    }
}

impl Frame {
    /// A frame without orders.
    pub fn new(buttons: ButtonsState, on_ground: bool, descending: bool, face_left: bool) -> (r:
        Self)
        ensures
            r@ == (FrameView { buttons, on_ground, descending, face_left, orders: Seq::empty() }),
    {
        Frame { buttons, on_ground, descending, face_left, orders: Vec::new() }
    }

    /// Adds `order` to the orders of the tick.
    pub fn order(&mut self, order: Order)
        ensures
            final(self)@ == old(self)@.with(order),
    {
        self.orders.push(order);
    }
}

} // verus!
