//! The player's controller with an attack: standing, walking, being in the
//! air, and striking.
//!
//! Every state has an update, which gives the orders of the tick and names
//! the state to change to, if any, and an action on being entered.

use crate::agent::{Clip, Frame, FrameView, Order};
use crate::ai::UPDATE_RATE;
use crate::controller::{direction, facing};
use crate::input::Button;
use crate::phx::Category;
use vstd::prelude::*;

verus! {

/// The speed that the player steers towards while a direction is held.
pub const TARGET_SPEED: u32 = 64;

/// How fast a walking player reaches the target speed.
pub const WALK_ACCEL: u32 = 10;

/// How fast a player in the air reaches the target speed.
pub const AIR_ACCEL: u32 = 5;

/// How fast a standing player comes to rest.
pub const IDLE_DECEL: u32 = 20;

/// How fast a striking player comes to rest on the ground.
pub const LAND_DECEL: u32 = 10;

/// How fast a striking player comes to rest in the air.
pub const AIR_DECEL: u32 = 5;

/// The vertical velocity with which a jump starts.
pub const JUMP_VELOCITY: i32 = -156;

/// For how many updates a strike lasts: a tenth of a second.
pub const ATTACK_COOLDOWN: u32 = UPDATE_RATE / 10;

/// How far from the player the box of a strike is centred.
pub const STRIKE_REACH: i32 = 16;

/// Half the width of the box of a strike.
pub const STRIKE_HALF_WIDTH: u32 = 8;

/// Half the height of the box of a strike.
pub const STRIKE_HALF_HEIGHT: u32 = 4;

/// What the player is doing.
#[derive(Debug, Clone, Copy, PartialEq, Eq, Structural)]
pub enum PlayerState {
    /// Standing.
    Idle,
    /// Walking.
    Walk,
    /// In the air; the flag tells whether the player is falling.
    InAir(bool),
    /// Striking, for this many more updates.
    Attack(u32),
}

/// Whether `button` went down in the tick of `frame`.
pub open spec fn struck(frame: FrameView, button: Button) -> bool {
    frame.buttons.held(button, 0) && !frame.buttons.held(button, 1)
}

/// The frame after the jump button was looked at: a jump button that went
/// down launches the player.
pub open spec fn jumped(frame: FrameView) -> FrameView {
    if struck(frame, Button::Jump) {
        frame.with(Order::Launch(JUMP_VELOCITY))
    } else {
        frame
    }
}

/// Whether the player falls once the jump button was looked at: a player who
/// was just launched rises.
pub open spec fn falling(frame: FrameView) -> bool {
    frame.descending && !struck(frame, Button::Jump)
}

/// The frame after the player was eased towards `target` at `rate`, with
/// slow speeds settled to zero.
pub open spec fn eased(frame: FrameView, target: i64, rate: u32) -> FrameView {
    frame.with(Order::Steer { target, rate }).with(Order::Settle)
}

/// The speed that the held direction asks for.
pub open spec fn wanted(frame: FrameView) -> i64 {
    (TARGET_SPEED * direction(frame)) as i64
}

/// Launches the player if the jump button went down.
pub fn handle_jump(frame: &mut Frame)
    ensures
        final(frame)@ == jumped(old(frame)@),
{
    if frame.buttons.pressed(Button::Jump) {
        frame.order(Order::Launch(JUMP_VELOCITY));
    }
}

/// Names the attack state if the attack button went down.
pub fn handle_attack(frame: &Frame) -> (r: Option<PlayerState>)
    ensures
        r == (if struck(frame@, Button::Attack) {
            Some(PlayerState::Attack(ATTACK_COOLDOWN))
        } else {
            None
        }),
{
    if frame.buttons.pressed(Button::Attack) {
        Some(PlayerState::Attack(ATTACK_COOLDOWN))
    } else {
        None
    }
}

/// The speed that the held direction asks for.
fn wanted_speed(frame: &Frame) -> (r: i64)
    ensures
        r == wanted(frame@),
        r != 0 <==> direction(frame@) != 0,
{
    let right = frame.buttons.is_pressed(Button::Right);
    let left = frame.buttons.is_pressed(Button::Left);
    let speed: i64 = TARGET_SPEED as i64;
    if right && !left {
        speed
    } else if left && !right {
        -speed
    } else {
        0
    }
}

/// Eases the player towards `target` at `rate` and settles slow speeds.
fn ease(frame: &mut Frame, target: i64, rate: u32)
    ensures
        final(frame)@ == eased(old(frame)@, target, rate),
{
    frame.order(Order::Steer { target, rate });
    frame.order(Order::Settle);
}

/// The state that an update of the idle state names.
pub open spec fn idle_next(frame: FrameView) -> Option<PlayerState> {
    if struck(frame, Button::Attack) {
        Some(PlayerState::Attack(ATTACK_COOLDOWN))
    } else if !frame.on_ground {
        Some(PlayerState::InAir(falling(frame)))
    } else if direction(frame) != 0 {
        Some(PlayerState::Walk)
    } else {
        None
    }
}

/// The frame after an update of the idle state: the jump button is served
/// first; a player who stays idle comes to rest.
pub open spec fn idle_frame(frame: FrameView) -> FrameView {
    if idle_next(frame) is Some {
        jumped(frame)
    } else {
        eased(jumped(frame), 0, IDLE_DECEL)
    }
}

/// One update of the idle state.
pub fn idle_update(frame: &mut Frame) -> (r: Option<PlayerState>)
    ensures
        r == idle_next(old(frame)@),
        final(frame)@ == idle_frame(old(frame)@),
{
    let was_falling = frame.descending && !frame.buttons.pressed(Button::Jump);
    handle_jump(frame);
    let attack = handle_attack(frame);
    if attack.is_some() {
        return attack;
    }
    if !frame.on_ground {
        return Some(PlayerState::InAir(was_falling));
    }
    if frame.buttons.is_pressed(Button::Right) ^ frame.buttons.is_pressed(Button::Left) {
        return Some(PlayerState::Walk);
    }
    ease(frame, 0, IDLE_DECEL);
    None
}

/// The state that an update of the walk state names.
pub open spec fn walk_next(frame: FrameView) -> Option<PlayerState> {
    if struck(frame, Button::Attack) {
        Some(PlayerState::Attack(ATTACK_COOLDOWN))
    } else if direction(frame) == 0 {
        Some(PlayerState::Idle)
    } else if !frame.on_ground {
        Some(PlayerState::InAir(falling(frame)))
    } else {
        None
    }
}

/// The frame after an update of the walk state: the jump button is served
/// first; a player who neither strikes nor stops turns to the held
/// direction and is eased towards the target speed.
pub open spec fn walk_frame(frame: FrameView) -> FrameView {
    if struck(frame, Button::Attack) || direction(frame) == 0 {
        jumped(frame)
    } else {
        eased(FrameView { face_left: facing(frame), ..jumped(frame) }, wanted(frame), WALK_ACCEL)
    }
}

/// One update of the walk state.
pub fn walk_update(frame: &mut Frame) -> (r: Option<PlayerState>)
    ensures
        r == walk_next(old(frame)@),
        final(frame)@ == walk_frame(old(frame)@),
{
    let was_falling = frame.descending && !frame.buttons.pressed(Button::Jump);
    handle_jump(frame);
    let attack = handle_attack(frame);
    if attack.is_some() {
        return attack;
    }
    let target_speed = wanted_speed(frame);
    if target_speed == 0 {
        return Some(PlayerState::Idle);
    }
    frame.face_left = match (
        frame.buttons.is_pressed(Button::Left),
        frame.buttons.is_pressed(Button::Right),
    ) {
        (true, false) => true,
        (false, true) => false,
        _ => frame.face_left,
    };
    ease(frame, target_speed, WALK_ACCEL);
    if !frame.on_ground {
        return Some(PlayerState::InAir(was_falling));
    }
    None
}

/// The state that an update of the in-air state names.
pub open spec fn in_air_next(frame: FrameView) -> Option<PlayerState> {
    if struck(frame, Button::Attack) {
        Some(PlayerState::Attack(ATTACK_COOLDOWN))
    } else if frame.on_ground {
        if direction(frame) != 0 {
            Some(PlayerState::Walk)
        } else {
            Some(PlayerState::Idle)
        }
    } else {
        None
    }
}

/// One update of the in-air state: the player is eased towards the target
/// speed; a player who stays in the air notes whether they fall.
pub fn in_air_update(frame: &mut Frame, falling: &mut bool) -> (r: Option<PlayerState>)
    ensures
        r == in_air_next(old(frame)@),
        final(frame)@ == eased(old(frame)@, wanted(old(frame)@), AIR_ACCEL),
        *final(falling) == (if r is None {
            old(frame)@.descending
        } else {
            *old(falling)
        }),
{
    let target_speed = wanted_speed(frame);
    ease(frame, target_speed, AIR_ACCEL);
    let attack = handle_attack(frame);
    if attack.is_some() {
        return attack;
    }
    if frame.on_ground {
        if target_speed != 0 {
            return Some(PlayerState::Walk);
        } else {
            return Some(PlayerState::Idle);
        }
    }
    if *falling != frame.descending {
        *falling = frame.descending;
    }
    None
}

/// The rate at which a striking player comes to rest.
pub open spec fn strike_decel(frame: FrameView) -> u32 {
    if frame.on_ground {
        LAND_DECEL
    } else {
        AIR_DECEL
    }
}

/// One update of the attack state: the time that is left runs down by one
/// update and the player comes to rest; when the time is up the player is
/// idle again.
pub fn attack_update(frame: &mut Frame, cd: &mut u32) -> (r: Option<PlayerState>)
    ensures
        final(frame)@ == eased(old(frame)@, 0, strike_decel(old(frame)@)),
        *final(cd) == (if *old(cd) > 0 {
            (*old(cd) - 1) as u32
        } else {
            0
        }),
        r == (if *old(cd) <= 1 {
            Some(PlayerState::Idle)
        } else {
            None
        }),
{
    if *cd > 0 {
        *cd -= 1;
    }
    let decel = if frame.on_ground {
        LAND_DECEL
    } else {
        AIR_DECEL
    };
    ease(frame, 0, decel);
    if *cd == 0 {
        return Some(PlayerState::Idle);
    }
    None
}

/// The hurt request of a strike: a box in front of the player, against
/// enemies.
pub open spec fn strike(frame: FrameView) -> Order {
    Order::Strike {
        reach: if frame.face_left {
            (-STRIKE_REACH) as i32
        } else {
            STRIKE_REACH
        },
        half_width: STRIKE_HALF_WIDTH,
        half_height: STRIKE_HALF_HEIGHT,
        mask: Category::ENEMY,
    }
}

/// On entering the attack state: the player strikes in the direction they
/// face.
pub fn attack_on_enter(frame: &mut Frame)
    ensures
        final(frame)@ == old(frame)@.with(strike(old(frame)@)),
{
    let reach = if frame.face_left {
        -STRIKE_REACH
    } else {
        STRIKE_REACH
    };
    frame.order(
        Order::Strike {
            reach,
            half_width: STRIKE_HALF_WIDTH,
            half_height: STRIKE_HALF_HEIGHT,
            mask: Category::ENEMY,
        },
    );
}

/// On entering the idle state: the standing animation plays.
pub fn idle_on_enter(frame: &mut Frame)
    ensures
        final(frame)@ == old(frame)@.with(Order::Animate(Clip::Idle)),
{
    frame.order(Order::Animate(Clip::Idle));
}

/// On entering the walk state: the running animation plays.
pub fn walk_on_enter(frame: &mut Frame)
    ensures
        final(frame)@ == old(frame)@.with(Order::Animate(Clip::Run)),
{
    frame.order(Order::Animate(Clip::Run));
}

/// On entering the in-air state: nothing happens.
pub fn in_air_on_enter(frame: &mut Frame)
    ensures
        final(frame)@ == old(frame)@,
{
}

impl PlayerState {
    /// The state that an update in this state names, if any.
    pub open spec fn next(self, frame: FrameView) -> Option<PlayerState> {
        match self {
            PlayerState::Idle => idle_next(frame),
            PlayerState::Walk => walk_next(frame),
            PlayerState::InAir(_) => in_air_next(frame),
            PlayerState::Attack(cd) => if cd <= 1 {
                Some(PlayerState::Idle)
            } else {
                None
            },
        }
    }

    /// This state after an update that names no other: the in-air state
    /// notes whether the player falls, the attack state has less time left.
    pub open spec fn kept(self, frame: FrameView) -> PlayerState {
        match self {
            PlayerState::InAir(_) => PlayerState::InAir(frame.descending),
            PlayerState::Attack(cd) => PlayerState::Attack((cd - 1) as u32),
            _ => self,
        }
    }

    /// The state after one tick of the controller in this state.
    pub open spec fn stepped(self, frame: FrameView) -> PlayerState {
        match self.next(frame) {
            Some(next) => next,
            None => self.kept(frame),
        }
    }

    /// The state after ticks of the controller in turn, one for each frame of
    /// `frames`.
    pub open spec fn after(self, frames: Seq<FrameView>) -> PlayerState
        decreases frames.len(),
    {
        if frames.len() == 0 {
            self
        } else {
            self.stepped(frames[0]).after(frames.drop_first())
        }
    }

    /// The frame after an update in this state.
    pub open spec fn updated(self, frame: FrameView) -> FrameView {
        match self {
            PlayerState::Idle => idle_frame(frame),
            PlayerState::Walk => walk_frame(frame),
            PlayerState::InAir(_) => eased(frame, wanted(frame), AIR_ACCEL),
            PlayerState::Attack(_) => eased(frame, 0, strike_decel(frame)),
        }
    }

    /// The frame after this state was entered.
    pub open spec fn entered(self, frame: FrameView) -> FrameView {
        match self {
            PlayerState::Idle => frame.with(Order::Animate(Clip::Idle)),
            PlayerState::Walk => frame.with(Order::Animate(Clip::Run)),
            PlayerState::InAir(_) => frame,
            PlayerState::Attack(_) => frame.with(strike(frame)),
        }
    }

    /// One update in this state. Returns the state to change to, if any.
    pub fn update(&mut self, frame: &mut Frame) -> (r: Option<PlayerState>)
        ensures
            r == old(self).next(old(frame)@),
            final(frame)@ == old(self).updated(old(frame)@),
            r is None ==> *final(self) == old(self).kept(old(frame)@),
    {
        match self {
            PlayerState::Idle => idle_update(frame),
            PlayerState::Walk => walk_update(frame),
            PlayerState::InAir(falling) => {
                let mut flag = *falling;
                let r = in_air_update(frame, &mut flag);
                *self = PlayerState::InAir(flag);
                r
            },
            PlayerState::Attack(cd) => {
                let mut left = *cd;
                let r = attack_update(frame, &mut left);
                *self = PlayerState::Attack(left);
                r
            },
        }
    }

    /// What happens when this state is entered.
    pub fn on_enter(&self, frame: &mut Frame)
        ensures
            final(frame)@ == self.entered(old(frame)@),
    {
        match self {
            PlayerState::Idle => idle_on_enter(frame),
            PlayerState::Walk => walk_on_enter(frame),
            PlayerState::InAir(_) => in_air_on_enter(frame),
            PlayerState::Attack(_) => attack_on_enter(frame),
        }
    }
}

/// The player's controller with an attack.
pub struct PlayerControlled {
    state: PlayerState,
}

impl PlayerControlled {
    /// What the player is doing.
    pub closed spec fn state(&self) -> PlayerState {
        self.state
    }

    /// A controller of a standing player.
    pub fn new() -> (r: Self)
        ensures
            r.state() == PlayerState::Idle,
    {
        Self { state: PlayerState::Idle }
    }

    /// What the player is doing.
    pub fn current(&self) -> (r: PlayerState)
        ensures
            r == self.state(),
    {
        self.state
    }

    /// One tick of the controller: the state that the player is in is
    /// updated, and if it names another state, that state becomes the
    /// player's and is entered at once.
    pub fn update(&mut self, frame: &mut Frame)
        ensures
            final(self).state() == old(self).state().stepped(old(frame)@),
            final(frame)@ == (match old(self).state().next(old(frame)@) {
                Some(next) => next.entered(old(self).state().updated(old(frame)@)),
                None => old(self).state().updated(old(frame)@),
            }),
    {
        if let Some(transition) = self.state.update(frame) {
            self.state = transition;
            self.state.on_enter(frame);
        }
    }
}

/// Strike. A striking player with `cooldown` updates left keeps striking
/// through every tick before the last, whatever the buttons say, and stands
/// after the last.
pub proof fn law_attack_expires(cooldown: u32, frames: Seq<FrameView>)
    requires
        1 <= cooldown,
        frames.len() <= cooldown,
    ensures
        PlayerState::Attack(cooldown).after(frames) == (if frames.len() == cooldown {
            PlayerState::Idle
        } else {
            PlayerState::Attack((cooldown - frames.len()) as u32)
        }),
    decreases frames.len(),
{
    if frames.len() > 0 {
        let rest = frames.drop_first();
        let next = PlayerState::Attack(cooldown).stepped(frames[0]);
        assert(PlayerState::Attack(cooldown).after(frames) == next.after(rest));
        if cooldown > 1 {
            law_attack_expires((cooldown - 1) as u32, rest);
        } else {
            assert(rest.len() == 0);
            assert(next.after(rest) == next);
        }
    }
}

} // verus!
