//! The player's controller: a state machine over standing, running, jumping
//! and being in the air.

use crate::agent::{Clip, Frame, FrameView, Order};
use crate::input::Button;
use crate::state_machine::{
    and_condition, blank, built, forced, invert_condition, law_enter_on_build, lemma_pruned,
    pruned, replay, Condition, Guard, Hook, State, StateMachine, StateMachineBuilder, StateView,
    Transition, READY_STATE,
};
use vstd::prelude::*;

verus! {

/// The speed that the player steers towards while a direction is held.
pub const TARGET_SPEED: u32 = 64;

/// How fast a running player reaches the target speed.
pub const RUN_ACCEL: u32 = 10;

/// How fast a player in the air reaches the target speed.
pub const AIR_ACCEL: u32 = 5;

/// How fast a standing player comes to rest.
pub const IDLE_DECEL: u32 = 20;

/// The vertical velocity with which a jump starts: a full jump rises 56
/// pixels and reaches its apex after half a second.
pub const JUMP_VELOCITY: i32 = -224;

/// The upward velocity that is left when a jump is cut short.
pub const JUMP_CUT_VELOCITY: i32 = -128;

/// The direction that the buttons ask for: `1` for right alone, `-1` for
/// left alone, `0` for both or none.
pub open spec fn direction(frame: FrameView) -> int {
    (if frame.buttons.held(Button::Right, 0) {
        1int
    } else {
        0int
    }) - (if frame.buttons.held(Button::Left, 0) {
        1int
    } else {
        0int
    })
}

/// The way the entity faces after the buttons had their say: left alone turns
/// it left, right alone turns it right, anything else leaves it.
pub open spec fn facing(frame: FrameView) -> bool {
    if frame.buttons.held(Button::Left, 0) && !frame.buttons.held(Button::Right, 0) {
        true
    } else if !frame.buttons.held(Button::Left, 0) && frame.buttons.held(Button::Right, 0) {
        false
    } else {
        frame.face_left
    }
}

/// The frame after the entity was steered at `target_speed` with
/// `acceleration`: the horizontal velocity is eased towards the target speed
/// in the held direction, a speed that is then below one pixel per second
/// is settled to zero, and the entity faces the held direction.
pub open spec fn moved(frame: FrameView, target_speed: u32, acceleration: u32) -> FrameView {
    FrameView {
        face_left: facing(frame),
        orders: frame.orders.push(
            Order::Steer { target: (target_speed * direction(frame)) as i64, rate: acceleration },
        ).push(Order::Settle),
        ..frame
    }
}

/// Whether a direction is held.
pub fn move_directional(frame: &Frame) -> (r: bool)
    ensures
        r == (frame@.buttons.held(Button::Right, 0) || frame@.buttons.held(Button::Left, 0)),
{
    frame.buttons.is_pressed(Button::Right) || frame.buttons.is_pressed(Button::Left)
}

/// Steers the entity at `target_speed` with `acceleration` and settles a
/// speed that is left below one pixel per second.
pub fn handle_movement(frame: &mut Frame, target_speed: u32, acceleration: u32)
    ensures
        final(frame)@ == moved(old(frame)@, target_speed, acceleration),
{
    let right = frame.buttons.is_pressed(Button::Right);
    let left = frame.buttons.is_pressed(Button::Left);
    let speed: i64 = target_speed as i64;
    let target: i64 = if right && !left {
        speed
    } else if left && !right {
        -speed
    } else {
        0
    };
    assert(target == target_speed * direction(frame@)) by (nonlinear_arith)
        requires
            speed == target_speed,
            direction(frame@) == 1 ==> target == speed,
            direction(frame@) == -1 ==> target == -speed,
            direction(frame@) == 0 ==> target == 0,
            -1 <= direction(frame@) <= 1,
    ;
    frame.orders.push(Order::Steer { target, rate: acceleration });
    frame.orders.push(Order::Settle);
    frame.face_left = match (left, right) {
        (true, false) => true,
        (false, true) => false,
        _ => frame.face_left,
    };
}

/// On entering the idle state: the standing animation plays.
pub fn idle_on_enter(frame: &mut Frame)
    ensures
        final(frame)@ == old(frame)@.with(Order::Animate(Clip::Idle)),
{
    frame.order(Order::Animate(Clip::Idle));
}

/// While idle: the entity comes to rest quickly.
pub fn idle_on_update(frame: &mut Frame)
    ensures
        final(frame)@ == old(frame)@.with(Order::Steer { target: 0, rate: IDLE_DECEL }).with(
            Order::Settle,
        ),
{
    frame.order(Order::Steer { target: 0, rate: IDLE_DECEL });
    frame.order(Order::Settle);
}

/// On entering the run state: the running animation plays.
pub fn run_on_enter(frame: &mut Frame)
    ensures
        final(frame)@ == old(frame)@.with(Order::Animate(Clip::Run)),
{
    frame.order(Order::Animate(Clip::Run));
}

/// While running: the entity is steered on the ground.
pub fn run_on_update(frame: &mut Frame)
    ensures
        final(frame)@ == moved(old(frame)@, TARGET_SPEED, RUN_ACCEL),
{
    handle_movement(frame, TARGET_SPEED, RUN_ACCEL);
}

/// Whether the jump button went down in this tick.
pub fn jump(frame: &Frame) -> (r: bool)
    ensures
        r == (frame@.buttons.held(Button::Jump, 0) && !frame@.buttons.held(Button::Jump, 1)),
{
    frame.buttons.pressed(Button::Jump)
}

/// Whether the jump button is down.
pub fn jump_held(frame: &Frame) -> (r: bool)
    ensures
        r == frame@.buttons.held(Button::Jump, 0),
{
    frame.buttons.is_pressed(Button::Jump)
}

/// Whether the entity moves downwards.
pub fn descending(frame: &Frame) -> (r: bool)
    ensures
        r == frame@.descending,
{
    frame.descending
}

/// Whether the entity stands on ground.
pub fn land(frame: &Frame) -> (r: bool)
    ensures
        r == frame@.on_ground,
{
    frame.on_ground
}

/// On entering the jump state: the entity takes off.
pub fn jump_on_enter(frame: &mut Frame)
    ensures
        final(frame)@ == old(frame)@.with(Order::Launch(JUMP_VELOCITY)),
{
    frame.order(Order::Launch(JUMP_VELOCITY));
}

/// While jumping: the entity is steered in the air.
pub fn jump_on_update(frame: &mut Frame)
    ensures
        final(frame)@ == moved(old(frame)@, TARGET_SPEED, AIR_ACCEL),
{
    handle_movement(frame, TARGET_SPEED, AIR_ACCEL);
}

/// On leaving the jump state: what is left of the rise is cut.
pub fn jump_on_exit(frame: &mut Frame)
    ensures
        final(frame)@ == old(frame)@.with(Order::CapRise(JUMP_CUT_VELOCITY)),
{
    frame.order(Order::CapRise(JUMP_CUT_VELOCITY));
}

/// On entering the airtime state: nothing happens.
pub fn airtime_on_enter(frame: &mut Frame)
    ensures
        final(frame)@ == old(frame)@,
{
}

/// While in the air: the entity is steered in the air.
pub fn airtime_on_update(frame: &mut Frame)
    ensures
        final(frame)@ == moved(old(frame)@, TARGET_SPEED, AIR_ACCEL),
{
    handle_movement(frame, TARGET_SPEED, AIR_ACCEL);
}

/// The primitive guards of the player's state machine.
#[derive(Debug, Clone, Copy, PartialEq, Eq, Structural)]
pub enum PlayerGuard {
    /// A direction is held.
    MoveDirectional,
    /// The jump button went down in this tick.
    Jump,
    /// The jump button is down.
    JumpHeld,
    /// The entity moves downwards.
    Descending,
    /// The entity stands on ground.
    Land,
}

impl Guard for PlayerGuard {
    type Ctx = Frame;

    open spec fn holds(&self, ctx: FrameView) -> bool {
        match self {
            PlayerGuard::MoveDirectional => ctx.buttons.held(Button::Right, 0)
                || ctx.buttons.held(Button::Left, 0),
            PlayerGuard::Jump => ctx.buttons.held(Button::Jump, 0) && !ctx.buttons.held(
                Button::Jump,
                1,
            ),
            PlayerGuard::JumpHeld => ctx.buttons.held(Button::Jump, 0),
            PlayerGuard::Descending => ctx.descending,
            PlayerGuard::Land => ctx.on_ground,
        }
    }

    fn test(&self, ctx: &Frame) -> (r: bool) {
        match self {
            PlayerGuard::MoveDirectional => move_directional(ctx),
            PlayerGuard::Jump => jump(ctx),
            PlayerGuard::JumpHeld => jump_held(ctx),
            PlayerGuard::Descending => descending(ctx),
            PlayerGuard::Land => land(ctx),
        }
    }
}

/// The hooks of the player's state machine.
#[derive(Debug, Clone, Copy, PartialEq, Eq, Structural)]
pub enum PlayerHook {
    IdleEnter,
    IdleUpdate,
    RunEnter,
    RunUpdate,
    JumpEnter,
    JumpUpdate,
    JumpExit,
    AirtimeEnter,
    AirtimeUpdate,
}

impl Hook for PlayerHook {
    type Ctx = Frame;

    open spec fn effect(&self, ctx: FrameView) -> FrameView {
        match self {
            PlayerHook::IdleEnter => ctx.with(Order::Animate(Clip::Idle)),
            PlayerHook::IdleUpdate => ctx.with(Order::Steer { target: 0, rate: IDLE_DECEL }).with(
                Order::Settle,
            ),
            PlayerHook::RunEnter => ctx.with(Order::Animate(Clip::Run)),
            PlayerHook::RunUpdate => moved(ctx, TARGET_SPEED, RUN_ACCEL),
            PlayerHook::JumpEnter => ctx.with(Order::Launch(JUMP_VELOCITY)),
            PlayerHook::JumpUpdate => moved(ctx, TARGET_SPEED, AIR_ACCEL),
            PlayerHook::JumpExit => ctx.with(Order::CapRise(JUMP_CUT_VELOCITY)),
            PlayerHook::AirtimeEnter => ctx,
            PlayerHook::AirtimeUpdate => moved(ctx, TARGET_SPEED, AIR_ACCEL),
        }
    }

    fn run(&self, ctx: &mut Frame) {
        match self {
            PlayerHook::IdleEnter => idle_on_enter(ctx),
            PlayerHook::IdleUpdate => idle_on_update(ctx),
            PlayerHook::RunEnter => run_on_enter(ctx),
            PlayerHook::RunUpdate => run_on_update(ctx),
            PlayerHook::JumpEnter => jump_on_enter(ctx),
            PlayerHook::JumpUpdate => jump_on_update(ctx),
            PlayerHook::JumpExit => jump_on_exit(ctx),
            PlayerHook::AirtimeEnter => airtime_on_enter(ctx),
            PlayerHook::AirtimeUpdate => airtime_on_update(ctx),
        }
    }
}

/// The states of the player's machine.
#[derive(Debug, Clone, Copy, PartialEq, Eq, Structural)]
pub enum StateID {
    Idle,
    Run,
    Jump,
    Airtime,
}

impl StateID {
    /// The id under which the state is registered.
    pub open spec fn spec_id(self) -> usize {
        match self {
            StateID::Idle => 0,
            StateID::Run => 1,
            StateID::Jump => 2,
            StateID::Airtime => 3,
        }
    }

    /// The id under which the state is registered.
    #[verifier::when_used_as_spec(spec_id)]
    pub fn id(self) -> (r: usize)
        ensures
            r == self.spec_id(),
    {
        match self {
            StateID::Idle => 0,
            StateID::Run => 1,
            StateID::Jump => 2,
            StateID::Airtime => 3,
        }
    }
}

/// The transition to `target` that is taken when `guard` is true.
pub open spec fn when(guard: Condition<PlayerGuard>, target: StateID) -> Transition<PlayerGuard> {
    Transition { target: target.id(), guard }
}

/// The guard that is the primitive `guard`.
pub open spec fn is(guard: PlayerGuard) -> Condition<PlayerGuard> {
    Condition::Is(guard)
}

/// The guard that is true when `guard` is false.
pub open spec fn not(guard: Condition<PlayerGuard>) -> Condition<PlayerGuard> {
    Condition::Not(Box::new(guard))
}

/// The guard that is true when `left` and `right` both are.
pub open spec fn both(left: Condition<PlayerGuard>, right: Condition<PlayerGuard>) -> Condition<
    PlayerGuard,
> {
    Condition::Both(Box::new(left), Box::new(right))
}

/// Standing: a held direction starts a run, the jump button a jump, and
/// losing the ground leads to the air, in this order of priority.
pub open spec fn idle_state() -> StateView<PlayerGuard, PlayerHook> {
    StateView {
        on_enter: Some(PlayerHook::IdleEnter),
        on_update: Some(PlayerHook::IdleUpdate),
        on_exit: None,
        transitions: seq![
            when(is(PlayerGuard::MoveDirectional), StateID::Run),
            when(is(PlayerGuard::Jump), StateID::Jump),
            when(not(is(PlayerGuard::Land)), StateID::Airtime),
        ],
    }
}

/// Running: letting go of the directions stops the run, the jump button
/// starts a jump, and losing the ground leads to the air, in this order of
/// priority.
pub open spec fn run_state() -> StateView<PlayerGuard, PlayerHook> {
    StateView {
        on_enter: Some(PlayerHook::RunEnter),
        on_update: Some(PlayerHook::RunUpdate),
        on_exit: None,
        transitions: seq![
            when(not(is(PlayerGuard::MoveDirectional)), StateID::Idle),
            when(is(PlayerGuard::Jump), StateID::Jump),
            when(not(is(PlayerGuard::Land)), StateID::Airtime),
        ],
    }
}

/// Jumping: the jump ends in the air when the entity starts to fall or the
/// jump button is let go.
pub open spec fn jump_state() -> StateView<PlayerGuard, PlayerHook> {
    StateView {
        on_enter: Some(PlayerHook::JumpEnter),
        on_update: Some(PlayerHook::JumpUpdate),
        on_exit: None,
        transitions: seq![
            when(is(PlayerGuard::Descending), StateID::Airtime),
            when(not(is(PlayerGuard::JumpHeld)), StateID::Airtime),
        ],
    }
}

/// In the air: on landing the entity stands if no direction is held, and
/// runs otherwise.
pub open spec fn airtime_state() -> StateView<PlayerGuard, PlayerHook> {
    StateView {
        on_enter: Some(PlayerHook::AirtimeEnter),
        on_update: Some(PlayerHook::AirtimeUpdate),
        on_exit: None,
        transitions: seq![
            when(
                both(is(PlayerGuard::Land), not(is(PlayerGuard::MoveDirectional))),
                StateID::Idle,
            ),
            when(both(is(PlayerGuard::Land), is(PlayerGuard::MoveDirectional)), StateID::Run),
        ],
    }
}

/// The states that the player's controller registers, by id.
pub open spec fn player_states() -> Map<usize, StateView<PlayerGuard, PlayerHook>> {
    Map::<usize, StateView<PlayerGuard, PlayerHook>>::empty().insert(READY_STATE, blank()).insert(
        StateID::Idle.id(),
        idle_state(),
    ).insert(StateID::Run.id(), run_state()).insert(StateID::Jump.id(), jump_state()).insert(
        StateID::Airtime.id(),
        airtime_state(),
    )
}

/// The controller of the player's entity.
pub struct PlayerControlledV2 {
    fsm: StateMachine<PlayerGuard, PlayerHook>,
}

impl PlayerControlledV2 {
    /// The state machine of the controller.
    pub closed spec fn machine(&self) -> StateMachine<PlayerGuard, PlayerHook> {
        self.fsm
    }

    /// A controller whose machine is built from the player's states and
    /// starts by entering the idle state.
    pub fn new() -> (r: Self)
        ensures
            r.machine().wf(),
            r.machine().active() == READY_STATE,
            r.machine().states() == built(player_states(), StateID::Idle.id()),
    {
        let idle_state = State::new().on_enter(PlayerHook::IdleEnter).on_update(
            PlayerHook::IdleUpdate,
        ).add_transition(StateID::Run.id(), Condition::Is(PlayerGuard::MoveDirectional))
            .add_transition(StateID::Jump.id(), Condition::Is(PlayerGuard::Jump)).add_transition(
            StateID::Airtime.id(),
            invert_condition(Condition::Is(PlayerGuard::Land)),
        );

        let run_state = State::new().on_enter(PlayerHook::RunEnter).on_update(
            PlayerHook::RunUpdate,
        ).add_transition(
            StateID::Idle.id(),
            invert_condition(Condition::Is(PlayerGuard::MoveDirectional)),
        ).add_transition(StateID::Jump.id(), Condition::Is(PlayerGuard::Jump)).add_transition(
            StateID::Airtime.id(),
            invert_condition(Condition::Is(PlayerGuard::Land)),
        );

        let jump_state = State::new().on_enter(PlayerHook::JumpEnter).on_update(
            PlayerHook::JumpUpdate,
        ).add_transition(StateID::Airtime.id(), Condition::Is(PlayerGuard::Descending))
            .add_transition(
            StateID::Airtime.id(),
            invert_condition(Condition::Is(PlayerGuard::JumpHeld)),
        );

        let airtime_state = State::new().on_enter(PlayerHook::AirtimeEnter).on_update(
            PlayerHook::AirtimeUpdate,
        ).add_transition(
            StateID::Idle.id(),
            and_condition(
                Condition::Is(PlayerGuard::Land),
                invert_condition(Condition::Is(PlayerGuard::MoveDirectional)),
            ),
        ).add_transition(
            StateID::Run.id(),
            and_condition(
                Condition::Is(PlayerGuard::Land),
                Condition::Is(PlayerGuard::MoveDirectional),
            ),
        );

        assert(idle_state@.transitions =~= self::idle_state().transitions);
        assert(run_state@.transitions =~= self::run_state().transitions);
        assert(jump_state@.transitions =~= self::jump_state().transitions);
        assert(airtime_state@.transitions =~= self::airtime_state().transitions);

        let builder = StateMachineBuilder::new().add_state(StateID::Idle.id(), idle_state)
            .add_state(StateID::Run.id(), run_state).add_state(StateID::Jump.id(), jump_state)
            .add_state(StateID::Airtime.id(), airtime_state);
        assert(builder.states() == player_states());
        let fsm = builder.build(StateID::Idle.id());
        Self { fsm }
    }

    /// The id of the active state.
    pub fn active_state(&self) -> (r: usize)
        ensures
            r == self.machine().active(),
    {
        self.fsm.active_state()
    }

    /// One tick of the controller on the frame of its entity.
    pub fn update(&mut self, frame: &mut Frame)
        ensures
            final(self).machine().wf(),
            final(self).machine().states() == old(self).machine().states(),
            final(self).machine().active() == old(self).machine().next_active(old(frame)@),
            final(frame)@ == replay(
                old(self).machine().states(),
                old(self).machine().calls(old(frame)@),
                old(frame)@,
            ),
    {
        self.fsm.update(frame);
    }
}

/// The player's graph. Validation finds nothing to prune in the player's
/// states: the machine
/// holds them as they were registered, and the ready state with the one
/// transition that leads to the idle state.
pub proof fn law_player_graph_kept()
    ensures
        built(player_states(), StateID::Idle.id()) == player_states().insert(
            READY_STATE,
            StateView {
                transitions: seq![forced::<PlayerGuard>(StateID::Idle.id())],
                ..blank::<PlayerGuard, PlayerHook>()
            },
        ),
{
    let states = player_states();
    let ids = states.dom();
    let machine = built(states, StateID::Idle.id());
    let expected = states.insert(
        READY_STATE,
        StateView {
            transitions: seq![forced::<PlayerGuard>(StateID::Idle.id())],
            ..blank::<PlayerGuard, PlayerHook>()
        },
    );
    assert forall|id: usize| machine.contains_key(id) implies #[trigger] machine[id]
        == expected[id] by {
        let table = states[id].transitions;
        assert forall|i: int| 0 <= i < table.len() implies ids.contains(
            (#[trigger] table[i]).target,
        ) by {}
        lemma_pruned(table, ids);
        if id == READY_STATE {
            assert(pruned(table, ids).push(forced::<PlayerGuard>(StateID::Idle.id())) == seq![
                forced::<PlayerGuard>(StateID::Idle.id()),
            ]);
        }
    }
    assert(machine.dom() == expected.dom());
    assert(machine == expected);
}

/// Start. Whatever the player senses, the first update of a new controller
/// enters the idle state: the standing animation plays, the player comes to
/// rest, and nothing else is ordered.
pub proof fn law_player_starts_idle(player: PlayerControlledV2, frame: FrameView)
    requires
        player.machine().active() == READY_STATE,
        player.machine().states() == built(player_states(), StateID::Idle.id()),
    ensures
        player.machine().next_active(frame) == StateID::Idle.id(),
        replay(player.machine().states(), player.machine().calls(frame), frame) == frame.with(
            Order::Animate(Clip::Idle),
        ).with(Order::Steer { target: 0, rate: IDLE_DECEL }).with(Order::Settle),
{
    law_enter_on_build(player_states(), StateID::Idle.id(), player.machine(), frame);
}

} // verus!
