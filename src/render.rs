//! The status screen: which draw calls a frame issues for the current
//! connection state and mode. Drawing reads the state and changes nothing.
use vstd::prelude::*;

use crate::control::Mode;

verus! {

/// The bitmaps the status screen uses.
#[derive(Debug, Clone, Copy, PartialEq, Eq, Structural)]
pub enum Icon {
    BleConnected,
    BleDisconnected,
    BasicMode,
    MouseMode,
    PlayPause,
    LeftArrow,
    RightArrow,
    FrameLeft,
    FrameRight,
    SpeedLeft,
    SpeedRight,
    VolumeUp,
    VolumeDown,
}

/// One draw call on the draw surface.
#[derive(Debug, Clone, Copy, PartialEq, Eq, Structural)]
pub enum DrawOp {
    Icon { x: i32, y: i32, icon: Icon },
    Circle { x: i32, y: i32, r: usize },
}

/// Centre of the button diagram in Basic mode.
pub const PAD_X: i32 = 32;
pub const PAD_Y: i32 = 71;

/// An icon drawn at (x, y).
pub open spec fn icon_at(x: int, y: int, icon: Icon) -> DrawOp {
    DrawOp::Icon { x: x as i32, y: y as i32, icon }
}

/// A circle of radius r centred at (x, y).
pub open spec fn circle_at(x: int, y: int, r: usize) -> DrawOp {
    DrawOp::Circle { x: x as i32, y: y as i32, r }
}

/// The draw calls of one frame: the link icon in the corner, then the mode
/// badge, and in Basic mode the diagram of what each button does.
pub open spec fn status_screen(connected: bool, mode: Mode) -> Seq<DrawOp> {
    let link = icon_at(0, 0, if connected { Icon::BleConnected } else { Icon::BleDisconnected });
    let (x, y) = (PAD_X as int, PAD_Y as int);
    match mode {
        Mode::Basic => seq![
            link,
            icon_at(53, 2, Icon::BasicMode),
            circle_at(x, y, 5),
            icon_at(x - 2, y - 2, Icon::PlayPause),
            circle_at(x, y, 16),
            icon_at(x - 14, y - 3, Icon::LeftArrow),
            icon_at(x + 7, y - 3, Icon::RightArrow),
            icon_at(x - 4, y - 13, Icon::FrameLeft),
            icon_at(x - 4, y + 7, Icon::FrameRight),
            circle_at(x, y, 25),
            icon_at(x - 23, y - 2, Icon::SpeedLeft),
            icon_at(x + 18, y - 2, Icon::SpeedRight),
            icon_at(x - 3, y - 23, Icon::VolumeUp),
            icon_at(x - 3, y + 18, Icon::VolumeDown),
        ],
        Mode::Mouse => seq![link, icon_at(54, 2, Icon::MouseMode)],
    }
}

/// The draw calls of one frame, in order.
pub fn draw_status(connected: bool, mode: Mode) -> (r: Vec<DrawOp>)
    ensures
        r@ == status_screen(connected, mode),
{
    let mut ops: Vec<DrawOp> = Vec::new();
    let link = if connected {
        Icon::BleConnected
    } else {
        Icon::BleDisconnected
    };
    ops.push(DrawOp::Icon { x: 0, y: 0, icon: link });
    match mode {
        Mode::Basic => {
            let (x, y) = (PAD_X, PAD_Y);
            ops.push(DrawOp::Icon { x: 53, y: 2, icon: Icon::BasicMode });
            ops.push(DrawOp::Circle { x, y, r: 5 });
            ops.push(DrawOp::Icon { x: x - 2, y: y - 2, icon: Icon::PlayPause });
            ops.push(DrawOp::Circle { x, y, r: 16 });
            ops.push(DrawOp::Icon { x: x - 14, y: y - 3, icon: Icon::LeftArrow });
            ops.push(DrawOp::Icon { x: x + 7, y: y - 3, icon: Icon::RightArrow });
            ops.push(DrawOp::Icon { x: x - 4, y: y - 13, icon: Icon::FrameLeft });
            ops.push(DrawOp::Icon { x: x - 4, y: y + 7, icon: Icon::FrameRight });
            ops.push(DrawOp::Circle { x, y, r: 25 });
            ops.push(DrawOp::Icon { x: x - 23, y: y - 2, icon: Icon::SpeedLeft });
            ops.push(DrawOp::Icon { x: x + 18, y: y - 2, icon: Icon::SpeedRight });
            ops.push(DrawOp::Icon { x: x - 3, y: y - 23, icon: Icon::VolumeUp });
            ops.push(DrawOp::Icon { x: x - 3, y: y + 18, icon: Icon::VolumeDown });
        },
        Mode::Mouse => {
            ops.push(DrawOp::Icon { x: 54, y: 2, icon: Icon::MouseMode });
        },
    }
    proof {
        assert(ops@ =~= status_screen(connected, mode));
    }
    ops
}

} // verus!
