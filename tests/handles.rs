use std::cell::{Cell, RefCell};

use flipper_yt_remote::bridge::{Bridge, CallbackSlot, SlotOp};
use flipper_yt_remote::bt::{check_success, Bt, BtStatus};
use flipper_yt_remote::gui::canvas::Canvas;
use flipper_yt_remote::gui::view_port::ViewPort;
use flipper_yt_remote::gui::{Font, Gui, InputEvent, InputKey, InputType, Orientation};
use flipper_yt_remote::lifecycle::ReleaseGuard;
use flipper_yt_remote::Error;

#[test]
fn input_bridge_decodes_native_codes() {
    let seen = RefCell::new(Vec::new());
    let bridge = Bridge::new(|e: InputEvent| seen.borrow_mut().push(e));
    bridge.invoke_input(2, 4);
    bridge.invoke_input(4, 3);
    bridge.invoke_input(9, 200);
    assert_eq!(
        *seen.borrow(),
        vec![
            InputEvent { type_: InputType::Short, key: InputKey::Center },
            InputEvent { type_: InputType::Repeat, key: InputKey::Left },
            InputEvent { type_: InputType::Unknown(9), key: InputKey::Unknown(200) },
        ]
    );
}

#[test]
fn every_native_input_code_decodes() {
    for code in 0..=255u8 {
        let e = InputEvent::from_raw(code, code);
        if code > 4 {
            assert_eq!(e.type_, InputType::Unknown(code));
        }
        if code > 5 {
            assert_eq!(e.key, InputKey::Unknown(code));
        }
    }
    assert_eq!(InputKey::from_raw(0), InputKey::Up);
    assert_eq!(InputKey::from_raw(1), InputKey::Down);
    assert_eq!(InputKey::from_raw(2), InputKey::Right);
    assert_eq!(InputKey::from_raw(5), InputKey::Back);
    assert_eq!(InputType::from_raw(0), InputType::Press);
    assert_eq!(InputType::from_raw(1), InputType::Release);
    assert_eq!(InputType::from_raw(3), InputType::Long);
}

#[test]
fn status_bridge_feeds_connection_flag() {
    let connected = Cell::new(false);
    let bridge = Bridge::new(|s: BtStatus| connected.set(s.is_connected()));
    bridge.invoke_status(3);
    assert!(connected.get());
    bridge.invoke_status(2);
    assert!(!connected.get());
    bridge.invoke_status(3);
    bridge.invoke_status(77);
    assert!(!connected.get());
    assert_eq!(BtStatus::from_raw(0), BtStatus::Unavailable);
    assert_eq!(BtStatus::from_raw(1), BtStatus::Off);
    assert_eq!(BtStatus::from_raw(77), BtStatus::Unknown(77));
}

#[test]
fn draw_bridge_hands_over_the_surface() {
    let seen = Cell::new(0usize);
    let bridge = Bridge::new(|c: &Canvas| seen.set(c.as_ptr()));
    bridge.invoke_draw(0x2000_0400);
    assert_eq!(seen.get(), 0x2000_0400);
}

#[test]
fn reregistration_installs_before_dropping() {
    let mut slot = CallbackSlot::new();
    assert_eq!(slot.register(), vec![SlotOp::Install]);
    assert_eq!(slot.register(), vec![SlotOp::Install, SlotOp::DropPrevious]);
    assert_eq!(slot.unregister(), vec![SlotOp::Uninstall, SlotOp::DropPrevious]);
    assert_eq!(slot.unregister(), vec![SlotOp::Uninstall]);
    assert!(!slot.stored && !slot.installed);
}

#[test]
fn status_callback_plans() {
    let mut bt = Bt::open(0x2000_1000).unwrap();
    assert_eq!(bt.as_ptr(), 0x2000_1000);
    assert_eq!(bt.set_status_changed_callback(), vec![SlotOp::Install]);
    assert_eq!(bt.unset_status_changed_callback(), vec![SlotOp::Uninstall, SlotOp::DropPrevious]);
    assert!(Bt::open(0).is_err());
}

#[test]
fn release_runs_once() {
    let mut frees = 0;
    let mut vp = ViewPort::new(0x2000_2000).unwrap();
    if vp.free() {
        frees += 1;
    }
    // the automatic fallback on drop goes through the same guard
    if vp.free() {
        frees += 1;
    }
    assert_eq!(frees, 1);

    let bt = Bt::open(0x2000_1000).unwrap();
    let mut profile = bt.hid_profile_start(0x2000_3000).unwrap();
    assert_eq!(profile.as_ptr(), 0x2000_3000);
    assert_eq!(profile.radio_ptr(), 0x2000_1000);
    let mut restores = 0;
    for _ in 0..3 {
        if profile.restore_default_profile() {
            restores += 1;
        }
    }
    assert_eq!(restores, 1);

    let mut g = ReleaseGuard::new();
    assert!(g.release());
    assert!(!g.release());
}

#[test]
fn null_handles_are_refused() {
    let bt = Bt::open(0x2000_1000).unwrap();
    assert!(matches!(bt.hid_profile_start(0), Err(Error)));
    assert!(ViewPort::new(0).is_err());
    assert!(Gui::open(0).is_err());
    assert_eq!(check_success(true), Ok(()));
    assert_eq!(check_success(false), Err(Error));
}

#[test]
fn one_view_port_per_display() {
    let mut gui = Gui::open(0x2000_4000).unwrap();
    assert_eq!(gui.as_ptr(), 0x2000_4000);
    let mut a = ViewPort::new(0x2000_5000).unwrap();
    let mut b = ViewPort::new(0x2000_6000).unwrap();
    assert!(gui.add_view_port(&mut a).is_ok());
    assert!(a.is_attached());
    assert!(gui.add_view_port(&mut b).is_err());
    assert!(gui.add_view_port(&mut a).is_err());
    assert!(!gui.remove_view_port(&mut b));
    assert!(gui.remove_view_port(&mut a));
    assert!(!a.is_attached());
    assert!(!gui.remove_view_port(&mut a));
    assert!(a.free());
    assert!(gui.add_view_port(&mut a).is_err());
    assert!(gui.add_view_port(&mut b).is_ok());
    assert_eq!(a.raw(), 0x2000_5000);
}

#[test]
fn view_port_callbacks_and_codes() {
    let mut vp = ViewPort::new(0x2000_5000).unwrap();
    assert_eq!(vp.set_draw_callback(), vec![SlotOp::Install]);
    assert_eq!(vp.set_input_callback(), vec![SlotOp::Install]);
    assert_eq!(vp.set_input_callback(), vec![SlotOp::Install, SlotOp::DropPrevious]);
    vp.set_enabled(false);
    assert_eq!(Orientation::VerticalFlip.to_raw(), 3);
    assert_eq!(Orientation::Horizontal.to_raw(), 0);
    assert_eq!(Font::BigNumbers.to_raw(), 3);
    assert_eq!(Font::Primary.to_raw(), 0);
}
