use slimeu::agent::{Clip, Frame, Order};
use slimeu::controller::{
    airtime_on_enter, airtime_on_update, descending, handle_movement, idle_on_enter,
    idle_on_update, jump, jump_held, jump_on_enter, jump_on_exit, jump_on_update, land,
    move_directional, run_on_enter, run_on_update, PlayerControlledV2, StateID,
};
use slimeu::input::{Button, ButtonsState};
use slimeu::state_machine::READY_STATE;

fn buttons(held: &[Button], pressed: &[Button]) -> ButtonsState {
    let mut before = [false; 6];
    let mut now = [false; 6];
    for button in held {
        before[button.index()] = true;
        now[button.index()] = true;
    }
    for button in pressed {
        now[button.index()] = true;
    }
    let mut state = ButtonsState::new();
    state.update(&before);
    state.update(&now);
    state
}

fn frame(held: &[Button], pressed: &[Button], on_ground: bool, descending: bool) -> Frame {
    Frame::new(buttons(held, pressed), on_ground, descending, false)
}

fn tick(
    player: &mut PlayerControlledV2,
    held: &[Button],
    pressed: &[Button],
    on_ground: bool,
    descending: bool,
) -> Vec<Order> {
    let mut frame = frame(held, pressed, on_ground, descending);
    player.update(&mut frame);
    frame.orders
}

#[test]
fn state_ids_are_numbered_from_zero() {
    assert_eq!(StateID::Idle.id(), 0);
    assert_eq!(StateID::Run.id(), 1);
    assert_eq!(StateID::Jump.id(), 2);
    assert_eq!(StateID::Airtime.id(), 3);
}

#[test]
fn guards_read_buttons_and_senses() {
    let walking = frame(&[Button::Left], &[], true, false);
    assert!(move_directional(&walking));
    assert!(land(&walking));
    assert!(!descending(&walking));
    assert!(!jump(&walking));
    assert!(!jump_held(&walking));
    let jumping = frame(&[], &[Button::Jump], false, true);
    assert!(!move_directional(&jumping));
    assert!(!land(&jumping));
    assert!(descending(&jumping));
    assert!(jump(&jumping));
    assert!(jump_held(&jumping));
    let holding = frame(&[Button::Jump, Button::Right], &[], false, false);
    assert!(!jump(&holding));
    assert!(jump_held(&holding));
    assert!(move_directional(&holding));
}

#[test]
fn handle_movement_steers_right_and_faces_right() {
    let mut frame = frame(&[Button::Right], &[], true, false);
    frame.face_left = true;
    handle_movement(&mut frame, 64, 10);
    assert_eq!(frame.orders, vec![Order::Steer { target: 64, rate: 10 }, Order::Settle]);
    assert!(!frame.face_left);
}

#[test]
fn handle_movement_steers_left_and_faces_left() {
    let mut frame = frame(&[], &[Button::Left], true, false);
    handle_movement(&mut frame, 64, 5);
    assert_eq!(frame.orders, vec![Order::Steer { target: -64, rate: 5 }, Order::Settle]);
    assert!(frame.face_left);
}

#[test]
fn handle_movement_with_both_directions_stops_and_keeps_facing() {
    let mut frame = frame(&[Button::Left, Button::Right], &[], true, false);
    frame.face_left = true;
    handle_movement(&mut frame, 64, 10);
    assert_eq!(frame.orders, vec![Order::Steer { target: 0, rate: 10 }, Order::Settle]);
    assert!(frame.face_left);
    let mut resting = self::frame(&[], &[], true, false);
    handle_movement(&mut resting, u32::MAX, 10);
    assert_eq!(resting.orders, vec![Order::Steer { target: 0, rate: 10 }, Order::Settle]);
    assert!(!resting.face_left);
}

#[test]
fn handle_movement_with_no_direction_brakes_and_settles() {
    let mut frame = frame(&[], &[], false, false);
    handle_movement(&mut frame, 64, 5);
    assert_eq!(frame.orders, vec![Order::Steer { target: 0, rate: 5 }, Order::Settle]);
}

#[test]
fn handle_movement_takes_the_largest_speed() {
    let mut frame = frame(&[Button::Left], &[], true, false);
    handle_movement(&mut frame, u32::MAX, 1);
    assert_eq!(frame.orders, vec![Order::Steer { target: -4_294_967_295, rate: 1 }, Order::Settle]);
}

#[test]
fn hooks_give_their_orders() {
    let mut frame = frame(&[Button::Right], &[], true, false);
    idle_on_enter(&mut frame);
    idle_on_update(&mut frame);
    run_on_enter(&mut frame);
    run_on_update(&mut frame);
    jump_on_enter(&mut frame);
    jump_on_update(&mut frame);
    jump_on_exit(&mut frame);
    airtime_on_enter(&mut frame);
    airtime_on_update(&mut frame);
    assert_eq!(
        frame.orders,
        vec![
            Order::Animate(Clip::Idle),
            Order::Steer { target: 0, rate: 20 },
            Order::Settle,
            Order::Animate(Clip::Run),
            Order::Steer { target: 64, rate: 10 },
            Order::Settle,
            Order::Launch(-224),
            Order::Steer { target: 64, rate: 5 },
            Order::Settle,
            Order::CapRise(-128),
            Order::Steer { target: 64, rate: 5 },
            Order::Settle,
        ]
    );
}

#[test]
fn player_enters_idle_on_first_update() {
    let mut player = PlayerControlledV2::new();
    assert_eq!(player.active_state(), READY_STATE);
    let orders = tick(&mut player, &[], &[], true, false);
    assert_eq!(player.active_state(), StateID::Idle.id());
    assert_eq!(
        orders,
        vec![Order::Animate(Clip::Idle), Order::Steer { target: 0, rate: 20 }, Order::Settle]
    );
}

#[test]
fn player_runs_jumps_falls_and_lands() {
    let mut player = PlayerControlledV2::new();
    tick(&mut player, &[], &[], true, false);

    let orders = tick(&mut player, &[], &[Button::Right], true, false);
    assert_eq!(player.active_state(), StateID::Run.id());
    assert_eq!(orders, vec![Order::Animate(Clip::Run), Order::Steer { target: 64, rate: 10 }, Order::Settle]);

    let orders = tick(&mut player, &[Button::Right], &[Button::Jump], true, false);
    assert_eq!(player.active_state(), StateID::Jump.id());
    assert_eq!(orders, vec![Order::Launch(-224), Order::Steer { target: 64, rate: 5 }, Order::Settle]);

    let orders = tick(&mut player, &[Button::Right, Button::Jump], &[], false, false);
    assert_eq!(player.active_state(), StateID::Jump.id());
    assert_eq!(orders, vec![Order::Steer { target: 64, rate: 5 }, Order::Settle]);

    let orders = tick(&mut player, &[Button::Right, Button::Jump], &[], false, true);
    assert_eq!(player.active_state(), StateID::Airtime.id());
    assert_eq!(orders, vec![Order::Steer { target: 64, rate: 5 }, Order::Settle]);

    let orders = tick(&mut player, &[Button::Right], &[], true, false);
    assert_eq!(player.active_state(), StateID::Run.id());
    assert_eq!(orders, vec![Order::Animate(Clip::Run), Order::Steer { target: 64, rate: 10 }, Order::Settle]);

    let orders = tick(&mut player, &[], &[], true, false);
    assert_eq!(player.active_state(), StateID::Idle.id());
    assert_eq!(
        orders,
        vec![Order::Animate(Clip::Idle), Order::Steer { target: 0, rate: 20 }, Order::Settle]
    );
}

#[test]
fn running_has_priority_over_jumping_when_idle() {
    let mut player = PlayerControlledV2::new();
    tick(&mut player, &[], &[], true, false);
    tick(&mut player, &[], &[Button::Left, Button::Jump], false, false);
    assert_eq!(player.active_state(), StateID::Run.id());
}

#[test]
fn letting_go_of_jump_ends_the_jump() {
    let mut player = PlayerControlledV2::new();
    tick(&mut player, &[], &[], true, false);
    tick(&mut player, &[], &[Button::Jump], true, false);
    assert_eq!(player.active_state(), StateID::Jump.id());
    tick(&mut player, &[], &[], false, false);
    assert_eq!(player.active_state(), StateID::Airtime.id());
}

#[test]
fn walking_off_a_ledge_leads_to_airtime() {
    let mut player = PlayerControlledV2::new();
    tick(&mut player, &[], &[], true, false);
    tick(&mut player, &[], &[], false, true);
    assert_eq!(player.active_state(), StateID::Airtime.id());
    tick(&mut player, &[], &[], false, true);
    assert_eq!(player.active_state(), StateID::Airtime.id());
    tick(&mut player, &[], &[], true, false);
    assert_eq!(player.active_state(), StateID::Idle.id());
}
