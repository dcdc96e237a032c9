//! The buttons of the game's notional controller and their recent history.
//!
//! The device is sampled once per tick, outside this crate. A
//! [`ButtonsState`] keeps the last eight samples of every button, from which
//! the level of a button and its edges are read.

use vstd::prelude::*;

verus! {

/// The buttons that the game knows, whatever device they are bound to.
#[derive(Debug, Clone, Copy, PartialEq, Eq, Structural)]
pub enum Button {
    Left,
    Right,
    Up,
    Down,
    Jump,
    Attack,
}

/// The number of buttons.
pub const BUTTON_COUNT: usize = 6;

impl Button {
    /// The place of the button in a sample: buttons are numbered in the
    /// order of their declaration.
    pub open spec fn place(self) -> int {
        match self {
            Button::Left => 0,
            Button::Right => 1,
            Button::Up => 2,
            Button::Down => 3,
            Button::Jump => 4,
            Button::Attack => 5,
        }
    }

    /// The place of the button in a sample.
    pub fn index(self) -> (r: usize)
        ensures
            r == self.place(),
            r < BUTTON_COUNT,
    {
        match self {
            Button::Left => 0,
            Button::Right => 1,
            Button::Up => 2,
            Button::Down => 3,
            Button::Jump => 4,
            Button::Attack => 5,
        }
    }
}

/// Whether the sample taken `age` ticks before the latest one reads "down" in
/// the history byte `history`. Ages of eight and more are forgotten.
pub open spec fn bit(history: u8, age: nat) -> bool {
    age < 8 && (history >> (age as u8)) & 1u8 == 1u8
}

/// The history byte after the sample `down` was added to `history`.
pub open spec fn shifted(history: u8, down: bool) -> u8 {
    (history << 1u8) | (if down {
        1u8
    } else {
        0u8
    })
}

/// Adding a sample makes it the latest one and ages every other sample by
/// one tick.
pub proof fn lemma_shifted(history: u8, down: bool, age: nat)
    ensures
        bit(shifted(history, down), 0) == down,
        0 < age < 8 ==> bit(shifted(history, down), age) == bit(history, (age - 1) as nat),
{
    let d: u8 = if down {
        1u8
    } else {
        0u8
    };
    assert(((history << 1u8) | d) >> 0u8 & 1u8 == d) by (bit_vector)
        requires
            d == 0u8 || d == 1u8,
    ;
    if 0 < age < 8 {
        let a: u8 = age as u8;
        let b: u8 = (age - 1) as u8;
        assert((((history << 1u8) | d) >> a) & 1u8 == (history >> b) & 1u8) by (bit_vector)
            requires
                d == 0u8 || d == 1u8,
                0u8 < a < 8u8,
                b == a - 1u8,
        ;
    }
}

/// The recent samples of every button, one history byte each.
#[derive(Debug, Clone, Copy)]
pub struct ButtonsState {
    history: [u8; 6],
}

impl ButtonsState {
    /// The history byte of `button`: bit 0 is the latest sample.
    pub closed spec fn history(&self, button: Button) -> u8 {
        self.history@[button.place()]
    }

    /// Whether `button` was down in the sample taken `age` ticks before the
    /// latest one.
    pub open spec fn held(&self, button: Button, age: nat) -> bool {
        bit(self.history(button), age)
    }

    /// A state in which no button has been down.
    pub fn new() -> (r: Self)
        ensures
            forall|button: Button| r.history(button) == 0,
    {
        ButtonsState { history: [0u8, 0u8, 0u8, 0u8, 0u8, 0u8] }
    }

    /// Adds one sample: `down[i]` tells whether the button with index `i` is
    /// down now.
    pub fn update(&mut self, down: &[bool; 6])
        ensures
            forall|button: Button|
                #[trigger] final(self).history(button) == shifted(
                    old(self).history(button),
                    down@[button.place()],
                ),
            forall|button: Button| #[trigger] final(self).held(button, 0) == down@[button.place()],
            forall|button: Button, age: nat|
                0 < age < 8 ==> #[trigger] final(self).held(button, age) == old(self).held(
                    button,
                    (age - 1) as nat,
                ),
    {
        let mut i: usize = 0;
        while i < 6
            invariant
                i <= 6,
                forall|k: int|
                    0 <= k < i ==> #[trigger] self.history@[k] == shifted(
                        old(self).history@[k],
                        down@[k],
                    ),
                forall|k: int| i <= k < 6 ==> #[trigger] self.history@[k] == old(self).history@[k],
            decreases 6 - i,
        {
            let sample: u8 = if down[i] {
                1
            } else {
                0
            };
            let next: u8 = (self.history[i] << 1u8) | sample;
            self.history[i] = next;
            i += 1;
        }
        assert forall|button: Button| #[trigger]
            final(self).held(button, 0) == down@[button.place()] by {
            lemma_shifted(old(self).history(button), down@[button.place()], 0);
        }
        assert forall|button: Button, age: nat| 0 < age < 8 implies #[trigger] final(self).held(
            button,
            age,
        ) == old(self).held(button, (age - 1) as nat) by {
            lemma_shifted(old(self).history(button), down@[button.place()], age);
        }
    }

    /// Whether `button` is down.
    pub fn is_pressed(&self, button: Button) -> (r: bool)
        ensures
            r == self.held(button, 0),
    {
        let h: u8 = self.history[button.index()];
        assert((h & 0b1u8 == 0b1u8) == ((h >> 0u8) & 1u8 == 1u8)) by (bit_vector);
        (h & 0b1) == 0b1
    }

    /// Whether `button` went down with the latest sample.
    pub fn pressed(&self, button: Button) -> (r: bool)
        ensures
            r == (self.held(button, 0) && !self.held(button, 1)),
    {
        let h: u8 = self.history[button.index()];
        assert((h & 0b11u8 == 0b01u8) == (((h >> 0u8) & 1u8 == 1u8) && !((h >> 1u8) & 1u8 == 1u8)))
            by (bit_vector);
        (h & 0b11) == 0b01
    }

    /// Whether `button` came up with the latest sample.
    pub fn released(&self, button: Button) -> (r: bool)
        ensures
            r == (!self.held(button, 0) && self.held(button, 1)),
    {
        let h: u8 = self.history[button.index()];
        assert((h & 0b11u8 == 0b10u8) == (!((h >> 0u8) & 1u8 == 1u8) && ((h >> 1u8) & 1u8 == 1u8)))
            by (bit_vector);
        (h & 0b11) == 0b10
    }
}

} // verus!
