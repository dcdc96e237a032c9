use slimeu::agent::{Clip, Frame, Order};
use slimeu::input::{Button, ButtonsState};
use slimeu::phx::Category;
use slimeu::player::{
    attack_on_enter, attack_update, handle_attack, handle_jump, idle_update, in_air_update,
    walk_update, PlayerControlled, PlayerState, ATTACK_COOLDOWN,
};

fn pad(held: &[Button], pressed: &[Button]) -> ButtonsState {
    let mut before = [false; 6];
    let mut now = [false; 6];
    for button in held {
        before[button.index()] = true;
        now[button.index()] = true;
    }
    for button in pressed {
        now[button.index()] = true;
    }
    let mut state = ButtonsState::new();
    state.update(&before);
    state.update(&now);
    state
}

fn view(held: &[Button], pressed: &[Button], on_ground: bool, descending: bool) -> Frame {
    Frame::new(pad(held, pressed), on_ground, descending, false)
}

const BRAKE_IDLE: [Order; 2] = [Order::Steer { target: 0, rate: 20 }, Order::Settle];

#[test]
fn attack_lasts_a_tenth_of_a_second() {
    assert_eq!(ATTACK_COOLDOWN, 6);
}

#[test]
fn jump_button_launches() {
    let mut frame = view(&[], &[Button::Jump], true, false);
    handle_jump(&mut frame);
    assert_eq!(frame.orders, vec![Order::Launch(-156)]);
    let mut held = view(&[Button::Jump], &[], true, false);
    handle_jump(&mut held);
    assert!(held.orders.is_empty());
}

#[test]
fn attack_button_names_the_attack_state() {
    assert_eq!(
        handle_attack(&view(&[], &[Button::Attack], true, false)),
        Some(PlayerState::Attack(6))
    );
    assert_eq!(handle_attack(&view(&[Button::Attack], &[], true, false)), None);
}

#[test]
fn idle_player_at_rest_brakes() {
    let mut frame = view(&[], &[], true, false);
    assert_eq!(idle_update(&mut frame), None);
    assert_eq!(frame.orders, BRAKE_IDLE.to_vec());
}

#[test]
fn idle_player_starts_to_walk() {
    let mut frame = view(&[], &[Button::Left], true, false);
    assert_eq!(idle_update(&mut frame), Some(PlayerState::Walk));
    assert!(frame.orders.is_empty());
    let mut both = view(&[Button::Left, Button::Right], &[], true, false);
    assert_eq!(idle_update(&mut both), None);
}

#[test]
fn idle_player_who_jumps_rises() {
    let mut frame = view(&[], &[Button::Jump], false, true);
    assert_eq!(idle_update(&mut frame), Some(PlayerState::InAir(false)));
    assert_eq!(frame.orders, vec![Order::Launch(-156)]);
}

#[test]
fn idle_player_without_ground_falls() {
    let mut frame = view(&[], &[], false, true);
    assert_eq!(idle_update(&mut frame), Some(PlayerState::InAir(true)));
    assert!(frame.orders.is_empty());
}

#[test]
fn attack_comes_before_everything_else_when_idle() {
    let mut frame = view(&[Button::Right], &[Button::Attack, Button::Jump], false, true);
    assert_eq!(idle_update(&mut frame), Some(PlayerState::Attack(6)));
    assert_eq!(frame.orders, vec![Order::Launch(-156)]);
}

#[test]
fn walking_player_turns_and_accelerates() {
    let mut frame = view(&[Button::Left], &[], true, false);
    assert_eq!(walk_update(&mut frame), None);
    assert_eq!(frame.orders, vec![Order::Steer { target: -64, rate: 10 }, Order::Settle]);
    assert!(frame.face_left);
}

#[test]
fn walking_player_without_direction_stands() {
    let mut frame = view(&[], &[], true, false);
    frame.face_left = true;
    assert_eq!(walk_update(&mut frame), Some(PlayerState::Idle));
    assert!(frame.orders.is_empty());
    assert!(frame.face_left);
}

#[test]
fn walking_player_off_the_ground_is_in_the_air() {
    let mut frame = view(&[Button::Right], &[], false, true);
    assert_eq!(walk_update(&mut frame), Some(PlayerState::InAir(true)));
    assert_eq!(frame.orders, vec![Order::Steer { target: 64, rate: 10 }, Order::Settle]);
    let mut jumping = view(&[Button::Right], &[Button::Jump], false, true);
    assert_eq!(walk_update(&mut jumping), Some(PlayerState::InAir(false)));
    assert_eq!(
        jumping.orders,
        vec![Order::Launch(-156), Order::Steer { target: 64, rate: 10 }, Order::Settle]
    );
}

#[test]
fn player_in_the_air_steers_and_tracks_falling() {
    let mut frame = view(&[Button::Right], &[], false, true);
    let mut falling = false;
    assert_eq!(in_air_update(&mut frame, &mut falling), None);
    assert!(falling);
    assert_eq!(frame.orders, vec![Order::Steer { target: 64, rate: 5 }, Order::Settle]);
}

#[test]
fn player_in_the_air_lands_walking_or_standing() {
    let mut moving = view(&[Button::Left], &[], true, false);
    let mut falling = true;
    assert_eq!(in_air_update(&mut moving, &mut falling), Some(PlayerState::Walk));
    assert!(falling);
    let mut still = view(&[], &[], true, false);
    assert_eq!(in_air_update(&mut still, &mut falling), Some(PlayerState::Idle));
    assert_eq!(still.orders, vec![Order::Steer { target: 0, rate: 5 }, Order::Settle]);
}

#[test]
fn player_in_the_air_can_attack() {
    let mut frame = view(&[], &[Button::Attack], true, false);
    let mut falling = true;
    assert_eq!(in_air_update(&mut frame, &mut falling), Some(PlayerState::Attack(6)));
}

#[test]
fn attack_runs_down_and_ends_idle() {
    let mut cooldown = 3;
    let mut frame = view(&[Button::Right], &[], true, false);
    assert_eq!(attack_update(&mut frame, &mut cooldown), None);
    assert_eq!(cooldown, 2);
    assert_eq!(frame.orders, vec![Order::Steer { target: 0, rate: 10 }, Order::Settle]);
    let mut airborne = view(&[], &[], false, false);
    assert_eq!(attack_update(&mut airborne, &mut cooldown), None);
    assert_eq!(airborne.orders, vec![Order::Steer { target: 0, rate: 5 }, Order::Settle]);
    let mut last = view(&[], &[], true, false);
    assert_eq!(attack_update(&mut last, &mut cooldown), Some(PlayerState::Idle));
    assert_eq!(cooldown, 0);
    assert_eq!(attack_update(&mut last, &mut cooldown), Some(PlayerState::Idle));
    assert_eq!(cooldown, 0);
}

#[test]
fn strike_is_placed_in_front_of_the_player() {
    let mut right = view(&[], &[], true, false);
    attack_on_enter(&mut right);
    assert_eq!(
        right.orders,
        vec![Order::Strike { reach: 16, half_width: 8, half_height: 4, mask: Category::ENEMY }]
    );
    let mut left = view(&[], &[], true, false);
    left.face_left = true;
    attack_on_enter(&mut left);
    assert_eq!(
        left.orders,
        vec![Order::Strike { reach: -16, half_width: 8, half_height: 4, mask: Category::ENEMY }]
    );
}

#[test]
fn controller_enters_the_state_that_an_update_names() {
    let mut player = PlayerControlled::new();
    assert_eq!(player.current(), PlayerState::Idle);
    let mut frame = view(&[], &[Button::Right], true, false);
    player.update(&mut frame);
    assert_eq!(player.current(), PlayerState::Walk);
    assert_eq!(frame.orders, vec![Order::Animate(Clip::Run)]);

    let mut frame = view(&[Button::Right], &[Button::Attack], true, false);
    player.update(&mut frame);
    assert_eq!(player.current(), PlayerState::Attack(6));
    assert_eq!(
        frame.orders,
        vec![Order::Strike { reach: 16, half_width: 8, half_height: 4, mask: Category::ENEMY }]
    );
}

#[test]
fn attack_state_returns_to_idle_after_its_cooldown() {
    let mut player = PlayerControlled::new();
    let mut frame = view(&[], &[Button::Attack], true, false);
    player.update(&mut frame);
    for left in (1..6).rev() {
        let mut frame = view(&[Button::Attack], &[], true, false);
        player.update(&mut frame);
        assert_eq!(player.current(), PlayerState::Attack(left));
    }
    let mut frame = view(&[Button::Attack], &[], true, false);
    player.update(&mut frame);
    assert_eq!(player.current(), PlayerState::Idle);
    assert_eq!(
        frame.orders,
        vec![
            Order::Steer { target: 0, rate: 10 },
            Order::Settle,
            Order::Animate(Clip::Idle),
        ]
    );
}

#[test]
fn controller_tracks_falling_in_the_air() {
    let mut player = PlayerControlled::new();
    let mut frame = view(&[], &[], false, false);
    player.update(&mut frame);
    assert_eq!(player.current(), PlayerState::InAir(false));
    let mut frame = view(&[], &[], false, true);
    player.update(&mut frame);
    assert_eq!(player.current(), PlayerState::InAir(true));
    let mut frame = view(&[], &[], true, false);
    player.update(&mut frame);
    assert_eq!(player.current(), PlayerState::Idle);
}
