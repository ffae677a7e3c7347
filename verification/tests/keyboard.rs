use logbot::directions::{MotorDirection, VehicleDirection};
use logbot::history::{History, HISTORY_SIZE};
use logbot::keyboard::{
    modifier, on_key, press, release, u8_into_state, Key, KeyAction, BACKWARD, FORWARD, LEFT, RIGHT,
};
use logbot::pwm::pin_to_channel;
use logbot::speed::Speed;

fn speed(units: i64) -> Speed {
    Speed::new(units).unwrap()
}

#[test]
fn the_four_keys_have_their_bits() {
    assert_eq!(modifier('w'), Some(FORWARD));
    assert_eq!(modifier('s'), Some(BACKWARD));
    assert_eq!(modifier('a'), Some(LEFT));
    assert_eq!(modifier('d'), Some(RIGHT));
    assert_eq!(modifier('x'), None);
    assert_eq!(modifier('W'), None);
    assert_eq!((FORWARD, BACKWARD, LEFT, RIGHT), (1, 2, 4, 8));
}

#[test]
fn keys_are_held_until_they_are_let_go() {
    let mut state = 0;
    state = press(state, 'w');
    assert_eq!(state, FORWARD);
    state = press(state, 'a');
    assert_eq!(state, FORWARD | LEFT);
    state = press(state, 'a');
    assert_eq!(state, FORWARD | LEFT);
    state = press(state, 'q');
    assert_eq!(state, FORWARD | LEFT);
    state = release(state, 'w');
    assert_eq!(state, LEFT);
    state = release(state, 'w');
    assert_eq!(state, LEFT);
    state = release(state, 'q');
    assert_eq!(state, LEFT);
    state = release(state, 'a');
    assert_eq!(state, 0);
}

#[test]
fn single_keys_drive_straight_or_spin() {
    let s = speed(600_000);
    assert_eq!(u8_into_state(0, s), None);
    assert_eq!(u8_into_state(FORWARD, s), Some(VehicleDirection::forward(s)));
    assert_eq!(u8_into_state(BACKWARD, s), Some(VehicleDirection::backward(s)));
    assert_eq!(u8_into_state(LEFT, s), Some(VehicleDirection::spin_left(s)));
    assert_eq!(u8_into_state(RIGHT, s), Some(VehicleDirection::spin_right(s)));
}

#[test]
fn two_keys_turn_with_the_inner_motor_at_a_third() {
    let s = speed(600_000);
    let third = speed(200_000);
    assert_eq!(
        u8_into_state(FORWARD | LEFT, s),
        Some(VehicleDirection::new(
            MotorDirection::Forward(third),
            MotorDirection::Forward(s)
        ))
    );
    assert_eq!(
        u8_into_state(FORWARD | RIGHT, s),
        Some(VehicleDirection::new(
            MotorDirection::Forward(s),
            MotorDirection::Forward(third)
        ))
    );
    assert_eq!(
        u8_into_state(BACKWARD | LEFT, s),
        Some(VehicleDirection::new(
            MotorDirection::Backward(third),
            MotorDirection::Backward(s)
        ))
    );
    assert_eq!(
        u8_into_state(BACKWARD | RIGHT, s),
        Some(VehicleDirection::new(
            MotorDirection::Backward(s),
            MotorDirection::Backward(third)
        ))
    );
}

#[test]
fn opposite_keys_cancel_each_other() {
    let s = speed(600_000);
    assert_eq!(u8_into_state(FORWARD | BACKWARD, s), None);
    assert_eq!(u8_into_state(LEFT | RIGHT, s), None);
    assert_eq!(u8_into_state(FORWARD | BACKWARD | LEFT | RIGHT, s), None);
    assert_eq!(
        u8_into_state(FORWARD | LEFT | RIGHT, s),
        Some(VehicleDirection::forward(s))
    );
    assert_eq!(
        u8_into_state(FORWARD | BACKWARD | RIGHT, s),
        Some(VehicleDirection::spin_right(s))
    );
    // Bits that stand for no key play no part.
    assert_eq!(u8_into_state(0xf0, s), None);
    assert_eq!(
        u8_into_state(0xf0 | BACKWARD, s),
        Some(VehicleDirection::backward(s))
    );
}

#[test]
fn a_speed_is_divided_into_equal_parts() {
    assert_eq!(speed(600_000) / 3, speed(200_000));
    assert_eq!(speed(1_000_000) / 3, speed(333_333));
    assert_eq!(speed(5) / 1, speed(5));
    assert_eq!(speed(5) / u64::MAX, speed(0));
    assert_eq!(speed(0) / 7, speed(0));
}

#[test]
fn only_four_pins_have_a_hardware_channel() {
    assert_eq!(pin_to_channel(12), Some(0));
    assert_eq!(pin_to_channel(18), Some(0));
    assert_eq!(pin_to_channel(13), Some(1));
    assert_eq!(pin_to_channel(19), Some(1));
    for pin in [0, 11, 14, 17, 20, 255] {
        assert_eq!(pin_to_channel(pin), None);
    }
}

#[test]
fn steering_keys_drive_while_they_are_held() {
    let s = speed(600_000);
    let (state, action) = on_key(0, false, s, Key::Char('w'), true);
    assert_eq!(state, FORWARD);
    assert_eq!(action, KeyAction::Drive(VehicleDirection::forward(s)));

    let (state, action) = on_key(state, false, s, Key::Char('d'), true);
    assert_eq!(state, FORWARD | RIGHT);
    assert_eq!(
        action,
        KeyAction::Drive(VehicleDirection::new(
            MotorDirection::Forward(s),
            MotorDirection::Forward(speed(200_000))
        ))
    );

    let (state, action) = on_key(state, false, s, Key::Char('w'), false);
    assert_eq!(state, RIGHT);
    assert_eq!(action, KeyAction::Drive(VehicleDirection::spin_right(s)));

    let (state, action) = on_key(state, false, s, Key::Char('d'), false);
    assert_eq!(state, 0);
    assert_eq!(action, KeyAction::Halt);

    // Opposite keys stop the robot.
    let (state, _) = on_key(0, false, s, Key::Char('a'), true);
    assert_eq!(on_key(state, false, s, Key::Char('d'), true), (LEFT | RIGHT, KeyAction::Halt));
}

#[test]
fn the_other_keys_ask_for_operations_when_pressed() {
    let s = speed(600_000);
    assert_eq!(on_key(0, false, s, Key::Char('c'), true), (0, KeyAction::Calibrate));
    assert_eq!(on_key(FORWARD, true, s, Key::Char('c'), true), (FORWARD, KeyAction::Calibrate));
    assert_eq!(on_key(0, false, s, Key::Char('c'), false), (0, KeyAction::Nothing));
    assert_eq!(on_key(0, true, s, Key::Char('e'), true), (0, KeyAction::FollowLine));
    assert_eq!(on_key(0, false, s, Key::Char('e'), true), (0, KeyAction::Nothing));
    assert_eq!(on_key(0, true, s, Key::Char('e'), false), (0, KeyAction::Nothing));
    assert_eq!(on_key(LEFT, true, s, Key::Esc, true), (LEFT, KeyAction::Exit));
    assert_eq!(on_key(LEFT, true, s, Key::Esc, false), (LEFT, KeyAction::Nothing));
    assert_eq!(on_key(0, true, s, Key::Char('x'), true), (0, KeyAction::Nothing));
    assert_eq!(on_key(RIGHT, true, s, Key::Other, true), (RIGHT, KeyAction::Nothing));
}

#[test]
fn the_lift_moves_only_while_the_robot_stands() {
    let s = speed(600_000);
    assert_eq!(on_key(0, false, s, Key::Up, true), (0, KeyAction::LiftUp));
    assert_eq!(on_key(0, false, s, Key::Down, true), (0, KeyAction::LiftDown));
    assert_eq!(on_key(FORWARD, false, s, Key::Up, true), (FORWARD, KeyAction::Nothing));
    assert_eq!(on_key(LEFT, false, s, Key::Down, true), (LEFT, KeyAction::Nothing));
    assert_eq!(on_key(0, false, s, Key::Up, false), (0, KeyAction::Nothing));
    assert_eq!(on_key(0, false, s, Key::Down, false), (0, KeyAction::Nothing));
}

#[test]
fn a_history_keeps_the_most_recent_readings() {
    let mut history = History::new(3);
    assert_eq!(history.len(), 0);
    assert_eq!(history.get(0), None);
    for value in [10, 20, 30] {
        history.push(value);
    }
    assert_eq!(history.len(), 3);
    assert_eq!(
        (history.get(0), history.get(1), history.get(2), history.get(3)),
        (Some(10), Some(20), Some(30), None)
    );
    history.push(40);
    history.push(50);
    assert_eq!(history.len(), 3);
    assert_eq!(
        (history.get(0), history.get(1), history.get(2)),
        (Some(30), Some(40), Some(50))
    );
}

#[test]
fn a_history_for_a_chart_holds_256_readings() {
    let mut history = History::new(HISTORY_SIZE);
    for i in 0..300u32 {
        history.push((i % 256) as u8);
    }
    assert_eq!(history.len(), 256);
    assert_eq!(history.get(0), Some(44));
    assert_eq!(history.get(255), Some(43));

    let mut none = History::new(0);
    none.push(9);
    assert_eq!(none.len(), 0);
}
