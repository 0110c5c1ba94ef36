use flipper_yt_remote::control::Mode;
use flipper_yt_remote::render::{draw_status, DrawOp, Icon};

#[test]
fn mouse_screen() {
    assert_eq!(
        draw_status(true, Mode::Mouse),
        vec![
            DrawOp::Icon { x: 0, y: 0, icon: Icon::BleConnected },
            DrawOp::Icon { x: 54, y: 2, icon: Icon::MouseMode },
        ]
    );
}

#[test]
fn basic_screen() {
    let ops = draw_status(false, Mode::Basic);
    assert_eq!(ops.len(), 14);
    assert_eq!(ops[0], DrawOp::Icon { x: 0, y: 0, icon: Icon::BleDisconnected });
    assert_eq!(ops[1], DrawOp::Icon { x: 53, y: 2, icon: Icon::BasicMode });
    assert_eq!(ops[2], DrawOp::Circle { x: 32, y: 71, r: 5 });
    assert_eq!(ops[5], DrawOp::Icon { x: 18, y: 68, icon: Icon::LeftArrow });
    assert_eq!(ops[9], DrawOp::Circle { x: 32, y: 71, r: 25 });
    assert_eq!(ops[13], DrawOp::Icon { x: 29, y: 89, icon: Icon::VolumeDown });
}
