//! The order of the systems within one tick.
//!
//! Nothing runs in parallel, so the order is the whole contract between the
//! systems: the buttons are sampled before any controller reads them, the
//! controllers' intent reaches the bodies before the step, the results come
//! back after it, the ground sensors are asked and hits are looked for once
//! the bodies have moved, and what a hit does to a velocity is not
//! overwritten by the step of the same tick. Entities are created and
//! destroyed only when every system has run.

use vstd::prelude::*;

verus! {

/// A system of the game.
#[derive(Debug, Clone, Copy, PartialEq, Eq, Structural)]
pub enum System {
    /// The buttons are sampled.
    Input,
    /// Effects age, and those that are over are marked for removal.
    Effects,
    /// Tint effects colour their targets.
    Tint,
    /// Animations advance.
    Animate,
    /// Gravity pulls.
    Gravity,
    /// The player's state machine updates.
    PlayerControl,
    /// The state machines of computer-driven entities update.
    AiControl,
    /// Positions and velocities are written to the bodies.
    Presync,
    /// The physics engine makes its step.
    Step,
    /// Positions and velocities are read back from the bodies.
    Postsync,
    /// Ground sensors report what they touched in the step.
    GroundCheck,
    /// Hurt requests become damage events.
    SpreadPain,
    /// Contacts cancel velocities.
    ResetVelocity,
    /// Damage events are applied.
    ApplyDamage,
    /// The camera follows its target.
    Camera,
    /// Deferred spawns and despawns happen.
    Flush,
}

/// The systems of a tick in the order in which they run.
pub open spec fn tick_order() -> Seq<System> {
    seq![
        System::Input,
        System::Effects,
        System::Tint,
        System::Animate,
        System::Gravity,
        System::PlayerControl,
        System::AiControl,
        System::Presync,
        System::Step,
        System::Postsync,
        System::GroundCheck,
        System::SpreadPain,
        System::ResetVelocity,
        System::ApplyDamage,
        System::Camera,
        System::Flush,
    ]
}

/// The systems of a tick in the order in which they run.
pub fn schedule() -> (order: Vec<System>)
    ensures
        order@ == tick_order(),
{
    let mut order: Vec<System> = Vec::new();
    order.push(System::Input);
    order.push(System::Effects);
    order.push(System::Tint);
    order.push(System::Animate);
    order.push(System::Gravity);
    order.push(System::PlayerControl);
    order.push(System::AiControl);
    order.push(System::Presync);
    order.push(System::Step);
    order.push(System::Postsync);
    order.push(System::GroundCheck);
    order.push(System::SpreadPain);
    order.push(System::ResetVelocity);
    order.push(System::ApplyDamage);
    order.push(System::Camera);
    order.push(System::Flush);
    assert(order@ =~= tick_order());
    order
}

/// Whether `first` runs exactly once in a tick, `second` too, and `first`
/// before `second`.
pub open spec fn precedes(first: System, second: System) -> bool {
    exists|i: int, j: int|
        0 <= i < j < tick_order().len() && tick_order()[i] == first && tick_order()[j] == second
            && forall|k: int|
            0 <= k < tick_order().len() && k != i && k != j ==> tick_order()[k] != first
                && tick_order()[k] != second
}

/// The order of a tick. The buttons are sampled before the controllers run;
/// both controllers run before the bodies are written;
/// the bodies are written before the step and read back after it; the
/// ground sensors are asked and hits are looked for after the step, once the
/// results were read back; damage is applied after the hits were looked
/// for and after the contacts cancelled velocities; and the deferred spawns
/// and despawns come after the damage was applied.
pub proof fn law_tick_order()
    ensures
        precedes(System::Input, System::PlayerControl),
        precedes(System::PlayerControl, System::Presync),
        precedes(System::AiControl, System::Presync),
        precedes(System::Presync, System::Step),
        precedes(System::Step, System::Postsync),
        precedes(System::Step, System::GroundCheck),
        precedes(System::Postsync, System::GroundCheck),
        precedes(System::Postsync, System::SpreadPain),
        precedes(System::SpreadPain, System::ApplyDamage),
        precedes(System::ResetVelocity, System::ApplyDamage),
        precedes(System::ApplyDamage, System::Flush),
{
    let order = tick_order();
    assert(order[0] == System::Input && order[1] == System::Effects && order[2] == System::Tint);
    assert(order[3] == System::Animate && order[4] == System::Gravity);
    assert(order[5] == System::PlayerControl && order[6] == System::AiControl);
    assert(order[7] == System::Presync && order[8] == System::Step);
    assert(order[9] == System::Postsync && order[10] == System::GroundCheck);
    assert(order[11] == System::SpreadPain && order[12] == System::ResetVelocity);
    assert(order[13] == System::ApplyDamage && order[14] == System::Camera);
    assert(order[15] == System::Flush);
}

} // verus!
