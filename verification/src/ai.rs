//! The controller of computer-driven entities: they stand around until they
//! are hit, and are stunned for a while when they are.

use crate::agent::Order;
use vstd::prelude::*;

verus! {

/// Remembers that the entity was hit since its controller last looked.
#[derive(Debug, Clone, Copy)]
pub struct HitMemory(pub bool);

impl HitMemory {
    /// A memory without a hit.
    pub fn new() -> (r: Self)
        ensures
            r.0 == false,
    {
        Self(false)
    }
}

/// The number of updates in a second.
pub const UPDATE_RATE: u32 = 60;

/// For how many updates a hit stuns: two seconds.
pub const HURT_TIME: u32 = 2 * UPDATE_RATE;

/// How fast an idle entity comes to rest.
pub const IDLE_DECEL: u32 = 20;

/// How fast a stunned entity comes to rest.
pub const HURT_DECEL: u32 = 10;

/// What a computer-driven entity is doing.
#[derive(Debug, Clone, Copy, PartialEq, Eq, Structural)]
pub enum AiState {
    /// Nothing.
    Idle,
    /// Stunned, for this many more updates.
    Hurt(u32),
}

/// The orders of an update that slows the entity down with `decel`.
pub open spec fn braking(decel: u32) -> Seq<Order> {
    seq![Order::Steer { target: 0, rate: decel }, Order::Settle]
}

/// Slows the entity down with `decel`.
fn brake(orders: &mut Vec<Order>, decel: u32)
    ensures
        final(orders)@ == old(orders)@ + braking(decel),
{
    orders.push(Order::Steer { target: 0, rate: decel });
    orders.push(Order::Settle);
    assert(orders@ == old(orders)@ + braking(decel));
}

impl AiState {
    /// The state after one update in this state, given whether the entity
    /// remembers a hit: a hit stuns an idle entity; a stunned entity does not
    /// notice hits and recovers when its time is up.
    pub open spec fn next(self, hit: bool) -> AiState {
        match self {
            AiState::Idle => if hit {
                AiState::Hurt(HURT_TIME)
            } else {
                AiState::Idle
            },
            AiState::Hurt(timer) => if timer <= 1 {
                AiState::Idle
            } else {
                AiState::Hurt((timer - 1) as u32)
            },
        }
    }

    /// The orders of one update in this state.
    pub open spec fn orders(self) -> Seq<Order> {
        match self {
            AiState::Idle => braking(IDLE_DECEL),
            AiState::Hurt(_) => braking(HURT_DECEL),
        }
    }

    /// The state after updates in turn, one for each entry of `hits`, which
    /// tells whether the entity remembers a hit at that update.
    pub open spec fn after(self, hits: Seq<bool>) -> AiState
        decreases hits.len(),
    {
        if hits.len() == 0 {
            self
        } else {
            self.next(hits[0]).after(hits.drop_first())
        }
    }
}

/// One update of an idle entity: it slows down, and a remembered hit stuns
/// it. Returns the state to change to, if any.
pub fn idle_update(memory: &mut HitMemory, orders: &mut Vec<Order>) -> (r: Option<AiState>)
    ensures
        final(orders)@ == old(orders)@ + braking(IDLE_DECEL),
        final(memory).0 == false,
        r == (if old(memory).0 {
            Some(AiState::Hurt(HURT_TIME))
        } else {
            None
        }),
{
    brake(orders, IDLE_DECEL);
    if memory.0 {
        memory.0 = false;
        return Some(AiState::Hurt(HURT_TIME));
    }
    None
}

/// One update of a stunned entity: hits are forgotten, the time that is left
/// runs down by one update, and the entity slows down. Returns the state to
/// change to, if any.
pub fn hurt_update(memory: &mut HitMemory, timer: &mut u32, orders: &mut Vec<Order>) -> (r: Option<
    AiState,
>)
    ensures
        final(orders)@ == old(orders)@ + braking(HURT_DECEL),
        final(memory).0 == false,
        *final(timer) == (if *old(timer) > 0 {
            (*old(timer) - 1) as u32
        } else {
            0
        }),
        r == (if *old(timer) <= 1 {
            Some(AiState::Idle)
        } else {
            None
        }),
{
    memory.0 = false;
    if *timer > 0 {
        *timer -= 1;
    }
    brake(orders, HURT_DECEL);
    if *timer == 0 {
        return Some(AiState::Idle);
    }
    None
}

/// The controller of a computer-driven entity.
pub struct AiControlled {
    state: AiState,
}

impl AiControlled {
    /// What the entity is doing.
    pub closed spec fn state(&self) -> AiState {
        self.state
    }

    /// A controller of an idle entity.
    pub fn new() -> (r: Self)
        ensures
            r.state() == AiState::Idle,
    {
        Self { state: AiState::Idle }
    }

    /// What the entity is doing.
    pub fn current(&self) -> (r: AiState)
        ensures
            r == self.state(),
    {
        self.state
    }

    /// One update of the controller: the orders of the state that the entity
    /// is in are appended to `orders`, the memory of a hit is cleared, and
    /// the state changes as [`AiState::next`] says.
    pub fn update(&mut self, memory: &mut HitMemory, orders: &mut Vec<Order>)
        ensures
            final(self).state() == old(self).state().next(old(memory).0),
            final(memory).0 == false,
            final(orders)@ == old(orders)@ + old(self).state().orders(),
    {
        let transition = match self.state {
            AiState::Idle => idle_update(memory, orders),
            AiState::Hurt(timer) => {
                let mut left = timer;
                let transition = hurt_update(memory, &mut left, orders);
                self.state = AiState::Hurt(left);
                transition
            },
        };
        if let Some(next) = transition {
            self.state = next;
        }
    }
}

/// Stun. A stunned entity with `timer` updates left stays stunned through
/// every update before the last, whatever hits it, and is idle after the
/// last.
pub proof fn law_hurt_expires(timer: u32, hits: Seq<bool>)
    requires
        1 <= timer,
        hits.len() <= timer,
    ensures
        AiState::Hurt(timer).after(hits) == (if hits.len() == timer {
            AiState::Idle
        } else {
            AiState::Hurt((timer - hits.len()) as u32)
        }),
    decreases hits.len(),
{
    if hits.len() > 0 {
        let rest = hits.drop_first();
        let next = AiState::Hurt(timer).next(hits[0]);
        assert(AiState::Hurt(timer).after(hits) == next.after(rest));
        if timer > 1 {
            law_hurt_expires((timer - 1) as u32, rest);
        } else {
            assert(rest.len() == 0);
            assert(next.after(rest) == next);
        }
    }
}

} // verus!
