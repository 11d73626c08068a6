use glframe::events::{process_events, InputEvent, KeyAction, LoopState, KEY_ESCAPE};
use glframe::motion::{rotation, Rotation, SPIN_EVERY, SPIN_RATE, TILT_STEP};

fn key(code: i32, action: KeyAction) -> InputEvent {
    InputEvent::Key { code, action }
}

#[test]
fn escape_press_closes_a_running_loop() {
    let running = LoopState::Running;
    assert_eq!(running.on_event(KEY_ESCAPE, key(256, KeyAction::Press)), LoopState::Closing);
    assert_eq!(running.on_event(KEY_ESCAPE, InputEvent::CloseRequested), LoopState::Closing);
    assert_eq!(running.on_event(KEY_ESCAPE, key(256, KeyAction::Release)), LoopState::Running);
    assert_eq!(running.on_event(KEY_ESCAPE, key(256, KeyAction::Repeat)), LoopState::Running);
    assert_eq!(running.on_event(KEY_ESCAPE, key(257, KeyAction::Press)), LoopState::Running);
    assert_eq!(running.on_event(KEY_ESCAPE, InputEvent::Other), LoopState::Running);
    assert_eq!(running.on_event(81, key(81, KeyAction::Press)), LoopState::Closing);
    assert_eq!(running.on_event(81, key(256, KeyAction::Press)), LoopState::Running);
}

#[test]
fn closing_loop_stays_closing() {
    let closing = LoopState::Closing;
    for event in [
        InputEvent::Other,
        InputEvent::CloseRequested,
        key(256, KeyAction::Press),
        key(256, KeyAction::Release),
    ] {
        assert_eq!(closing.on_event(KEY_ESCAPE, event), LoopState::Closing);
    }
    assert_eq!(process_events(closing, KEY_ESCAPE, &[]), LoopState::Closing);
    assert!(!closing.is_running());
    assert!(LoopState::Running.is_running());
}

#[test]
fn events_of_one_poll() {
    let running = LoopState::Running;
    assert_eq!(process_events(running, KEY_ESCAPE, &[]), LoopState::Running);
    assert_eq!(
        process_events(
            running,
            KEY_ESCAPE,
            &[InputEvent::Other, key(32, KeyAction::Press), key(256, KeyAction::Release)]
        ),
        LoopState::Running
    );
    assert_eq!(
        process_events(
            running,
            KEY_ESCAPE,
            &[InputEvent::Other, key(256, KeyAction::Press), key(256, KeyAction::Release)]
        ),
        LoopState::Closing
    );
    assert_eq!(
        process_events(running, KEY_ESCAPE, &[InputEvent::CloseRequested]),
        LoopState::Closing
    );
}

#[test]
fn every_third_object_spins_and_the_others_are_tilted() {
    assert_eq!((SPIN_EVERY, SPIN_RATE, TILT_STEP), (3, 30, 20));
    for index in 0..10u32 {
        let expected = if index % 3 == 0 {
            Rotation::Spinning { degrees_per_second: 30 }
        } else {
            Rotation::Fixed { degrees: 20 * index as u64 }
        };
        assert_eq!(rotation(index), expected);
    }
    assert_eq!(rotation(u32::MAX), Rotation::Spinning { degrees_per_second: 30 });
    assert_eq!(rotation(u32::MAX - 1), Rotation::Fixed { degrees: 85_899_345_880 });
}

#[test]
fn spinning_angle_follows_time_and_fixed_angle_does_not() {
    let spinning = rotation(3);
    assert_eq!(spinning.angle(0), Some(0));
    assert_eq!(spinning.angle(1), Some(30));
    assert_eq!(spinning.angle(2_000), Some(60_000));
    assert_eq!(spinning.angle(2_001), Some(60_030));
    let fixed = rotation(7);
    assert_eq!(fixed.angle(0), Some(140_000));
    assert_eq!(fixed.angle(2_000), Some(140_000));
    assert_eq!(fixed.angle(u64::MAX), Some(140_000));
    assert_eq!(rotation(1).angle(5), Some(20_000));
}

#[test]
fn angle_that_does_not_fit_is_none() {
    let spinning = Rotation::Spinning { degrees_per_second: 30 };
    assert_eq!(spinning.angle(u64::MAX / 30), Some(u64::MAX / 30 * 30));
    assert_eq!(spinning.angle(u64::MAX / 30 + 1), None);
    let fixed = Rotation::Fixed { degrees: u64::MAX / 1000 + 1 };
    assert_eq!(fixed.angle(0), None);
    assert_eq!(Rotation::Fixed { degrees: u64::MAX / 1000 }.angle(9), Some(u64::MAX / 1000 * 1000));
}
