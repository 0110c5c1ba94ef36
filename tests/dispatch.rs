use flipper_yt_remote::bt::{ConsumerKey, Key, KeyMods, MouseButton, LEFT_SHIFT};
use flipper_yt_remote::control::{
    dispatch, teardown_steps, Controller, HidAction, Mode, TeardownStep,
};
use flipper_yt_remote::gui::{InputEvent, InputKey, InputType};

fn ev(key: InputKey, type_: InputType) -> InputEvent {
    InputEvent { type_, key }
}

const KEYS: [InputKey; 8] = [
    InputKey::Up,
    InputKey::Down,
    InputKey::Right,
    InputKey::Left,
    InputKey::Center,
    InputKey::Back,
    InputKey::Unknown(6),
    InputKey::Unknown(200),
];

const TYPES: [InputType; 7] = [
    InputType::Press,
    InputType::Release,
    InputType::Short,
    InputType::Long,
    InputType::Repeat,
    InputType::Unknown(5),
    InputType::Unknown(255),
];

#[test]
fn basic_ok_short_taps_space() {
    let mut c = Controller::new();
    assert_eq!(c.mode, Mode::Basic);
    let actions = c.handle(ev(InputKey::Center, InputType::Short));
    assert_eq!(
        actions,
        vec![HidAction::KeyPress(Key::Spacebar), HidAction::KeyRelease(Key::Spacebar)]
    );
    assert_eq!(Key::Spacebar.discriminant(), 0x2c);
    assert_eq!(c.mode, Mode::Basic);
    assert!(!c.exited);
}

#[test]
fn mouse_right_repeat_moves_twenty() {
    let mut c = Controller::new();
    c.handle(ev(InputKey::Back, InputType::Short));
    assert_eq!(c.mode, Mode::Mouse);
    let actions = c.handle(ev(InputKey::Right, InputType::Repeat));
    assert_eq!(actions, vec![HidAction::MouseMove(20, 0)]);
    assert_eq!(c.mode, Mode::Mouse);
}

#[test]
fn back_long_exits_then_fixed_teardown() {
    for start in [Mode::Basic, Mode::Mouse] {
        let step = dispatch(start, ev(InputKey::Back, InputType::Long));
        assert!(step.exit);
        assert!(step.actions.is_empty());
        assert_eq!(step.mode, start);
    }
    let mut c = Controller::new();
    c.handle(ev(InputKey::Back, InputType::Short));
    c.handle(ev(InputKey::Back, InputType::Long));
    assert!(c.exited);
    assert_eq!(
        teardown_steps(),
        vec![
            TeardownStep::DisableViewPort,
            TeardownStep::UnsetStatusCallback,
            TeardownStep::Disconnect,
            TeardownStep::RestoreDefaultKeyStoragePath,
            TeardownStep::RestoreDefaultProfile,
        ]
    );
}

#[test]
fn back_short_toggles_and_only_back_long_exits() {
    for mode in [Mode::Basic, Mode::Mouse] {
        for k in KEYS {
            for t in TYPES {
                let step = dispatch(mode, ev(k, t));
                let is_back_long = k == InputKey::Back && t == InputType::Long;
                let is_back_short = k == InputKey::Back && t == InputType::Short;
                assert_eq!(step.exit, is_back_long);
                let expected_mode = match (is_back_short, mode) {
                    (true, Mode::Basic) => Mode::Mouse,
                    (true, Mode::Mouse) => Mode::Basic,
                    (false, m) => m,
                };
                assert_eq!(step.mode, expected_mode);
            }
        }
    }
}

#[test]
fn feed_stops_at_first_back_long() {
    let events = vec![
        ev(InputKey::Back, InputType::Short),
        ev(InputKey::Up, InputType::Press),
        ev(InputKey::Back, InputType::Short),
        ev(InputKey::Back, InputType::Short),
        ev(InputKey::Back, InputType::Long),
        ev(InputKey::Back, InputType::Short),
    ];
    let mut c = Controller::new();
    assert_eq!(c.feed(&events), 5);
    assert!(c.exited);
    assert_eq!(c.mode, Mode::Mouse);

    let mut d = Controller::new();
    assert_eq!(d.feed(&events[..3].to_vec()), 3);
    assert!(!d.exited);
    assert_eq!(d.mode, Mode::Basic);
}

#[test]
fn basic_table() {
    let tap = |k: Key| vec![HidAction::KeyPress(k), HidAction::KeyRelease(k)];
    let cases = [
        (InputKey::Center, InputType::Short, tap(Key::Spacebar)),
        (InputKey::Center, InputType::Long, tap(Key::F)),
        (InputKey::Left, InputType::Short, tap(Key::LeftArrow)),
        (InputKey::Right, InputType::Short, tap(Key::RightArrow)),
        (InputKey::Left, InputType::Long, tap(Key::Other(0x236))),
        (InputKey::Right, InputType::Long, tap(Key::Other(0x237))),
        (InputKey::Up, InputType::Short, tap(Key::Dot)),
        (InputKey::Down, InputType::Short, tap(Key::Comma)),
        (
            InputKey::Up,
            InputType::Long,
            vec![
                HidAction::ConsumerPress(ConsumerKey::VolumeIncrease),
                HidAction::ConsumerRelease(ConsumerKey::VolumeIncrease),
            ],
        ),
        (
            InputKey::Down,
            InputType::Long,
            vec![
                HidAction::ConsumerPress(ConsumerKey::VolumeDecrease),
                HidAction::ConsumerRelease(ConsumerKey::VolumeDecrease),
            ],
        ),
    ];
    for (k, t, expected) in cases {
        assert_eq!(dispatch(Mode::Basic, ev(k, t)).actions, expected);
    }
}

#[test]
fn mouse_table_and_magnitudes() {
    let cases = [
        (InputKey::Left, InputType::Press, (-5, 0)),
        (InputKey::Right, InputType::Press, (5, 0)),
        (InputKey::Up, InputType::Press, (0, -5)),
        (InputKey::Down, InputType::Press, (0, 5)),
        (InputKey::Left, InputType::Repeat, (-20, 0)),
        (InputKey::Right, InputType::Repeat, (20, 0)),
        (InputKey::Up, InputType::Repeat, (0, -20)),
        (InputKey::Down, InputType::Repeat, (0, 20)),
    ];
    for (k, t, (dx, dy)) in cases {
        let step = dispatch(Mode::Mouse, ev(k, t));
        assert_eq!(step.actions, vec![HidAction::MouseMove(dx, dy)]);
        assert_eq!(step.mode, Mode::Mouse);
    }
    assert_eq!(
        dispatch(Mode::Mouse, ev(InputKey::Center, InputType::Press)).actions,
        vec![HidAction::MousePress(MouseButton::M1)]
    );
    assert_eq!(
        dispatch(Mode::Mouse, ev(InputKey::Center, InputType::Release)).actions,
        vec![HidAction::MouseRelease(MouseButton::M1)]
    );
}

#[test]
fn unlisted_events_do_nothing() {
    let unlisted_basic = [
        ev(InputKey::Up, InputType::Press),
        ev(InputKey::Center, InputType::Repeat),
        ev(InputKey::Left, InputType::Release),
        ev(InputKey::Unknown(9), InputType::Short),
        ev(InputKey::Center, InputType::Unknown(7)),
    ];
    for e in unlisted_basic {
        let step = dispatch(Mode::Basic, e);
        assert!(step.actions.is_empty());
        assert_eq!(step.mode, Mode::Basic);
        assert!(!step.exit);
    }
    let unlisted_mouse = [
        ev(InputKey::Center, InputType::Short),
        ev(InputKey::Up, InputType::Short),
        ev(InputKey::Left, InputType::Long),
        ev(InputKey::Down, InputType::Release),
        ev(InputKey::Unknown(6), InputType::Press),
    ];
    for e in unlisted_mouse {
        let step = dispatch(Mode::Mouse, e);
        assert!(step.actions.is_empty());
        assert_eq!(step.mode, Mode::Mouse);
        assert!(!step.exit);
    }
}

#[test]
fn mode_codes_round_trip() {
    for m in [Mode::Basic, Mode::Mouse] {
        assert_eq!(Mode::from_code(m.to_code()), Some(m));
    }
    assert_eq!(Mode::Mouse.to_code(), 1);
    assert_eq!(Mode::from_code(2), None);
}

#[test]
fn key_codes_and_modifiers() {
    assert_eq!(Key::A.discriminant(), 0x04);
    assert_eq!(Key::Num0.discriminant(), 0x27);
    assert_eq!(Key::Enter.discriminant(), 0x28);
    assert_eq!(Key::Comma.discriminant(), 0x36);
    assert_eq!(Key::F.discriminant(), 0x09);
    assert_eq!(Key::UpArrow.discriminant(), 0x52);
    assert_eq!(Key::VolumeDown.discriminant(), 0x81);
    assert_eq!(Key::RightGUI.discriminant(), 0xe7);
    assert_eq!(Key::Other(0x1234).discriminant(), 0x1234);
    let shift = KeyMods { bits: LEFT_SHIFT };
    assert_eq!(Key::Comma | shift, Key::Other(0x236));
    assert_eq!(shift | Key::Dot, Key::Other(0x237));
    assert_eq!(KeyMods::from_bits_truncate(0x03ff).bits, 0x0300);
    assert_eq!(shift.union(KeyMods { bits: 0x100 }).bits, 0x300);
    assert_eq!(ConsumerKey::VolumeIncrease.discriminant(), 0xe9);
    assert_eq!(ConsumerKey::VolumeDecrease.discriminant(), 0xea);
    assert_eq!(MouseButton::M1.discriminant(), 1);
    assert_eq!(MouseButton::M5.discriminant(), 5);
    assert_eq!(MouseButton::Other(-3).discriminant(), -3);
}
