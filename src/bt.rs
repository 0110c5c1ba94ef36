//! The radio: connection status, HID usage codes, and the handle models of
//! the radio record and of a running HID profile.
use vstd::prelude::*;

use crate::bridge::{CallbackSlot, SlotOp};
use crate::lifecycle::ReleaseGuard;
use crate::Error;

verus! {

/// Connection state reported by the radio stack.
#[derive(Debug, Clone, Copy, PartialEq, Eq, Structural)]
pub enum BtStatus {
    Unavailable,
    Off,
    Advertising,
    Connected,
    Unknown(u8),
}

/// Native status code to status: 0 to 3 are the known states, any other
/// code is kept in `Unknown`.
pub open spec fn bt_status_of(code: u8) -> BtStatus {
    if code == 0 {
        BtStatus::Unavailable
    } else if code == 1 {
        BtStatus::Off
    } else if code == 2 {
        BtStatus::Advertising
    } else if code == 3 {
        BtStatus::Connected
    } else {
        BtStatus::Unknown(code)
    }
}

impl BtStatus {
    /// Decodes a native status code.
    pub fn from_raw(code: u8) -> (r: BtStatus)
        ensures
            r == bt_status_of(code),
    {
        match code {
            0 => BtStatus::Unavailable,
            1 => BtStatus::Off,
            2 => BtStatus::Advertising,
            3 => BtStatus::Connected,
            _ => BtStatus::Unknown(code),
        }
    }

    /// Whether a peer is connected; this is what the screen shows.
    pub fn is_connected(&self) -> (r: bool)
        ensures
            r == (*self == BtStatus::Connected),
    {
        match self {
            BtStatus::Connected => true,
            _ => false,
        }
    }
}

/// Status codes past the known ones land in `Unknown` with the code kept,
/// and distinct codes decode to distinct statuses.
pub proof fn lemma_status_decoding(a: u8, b: u8)
    ensures
        a > 3 ==> bt_status_of(a) == BtStatus::Unknown(a),
        bt_status_of(a) == bt_status_of(b) ==> a == b,
{
}

/// Keyboard key, by HID usage code; `Other` carries any code, with
/// modifier bits in its high byte.
#[derive(Debug, Clone, Copy, PartialEq, Eq, Structural)]
pub enum Key {
    A,
    B,
    C,
    D,
    E,
    F,
    G,
    H,
    I,
    J,
    K,
    L,
    M,
    N,
    O,
    P,
    Q,
    R,
    S,
    T,
    U,
    V,
    W,
    X,
    Y,
    Z,
    Num1,
    Num2,
    Num3,
    Num4,
    Num5,
    Num6,
    Num7,
    Num8,
    Num9,
    Num0,
    Enter,
    Escape,
    Backspace,
    Tab,
    Spacebar,
    Minus,
    Equal,
    LeftBracket,
    RightBracket,
    RightSlash,
    Hash,
    Semicolon,
    Comma,
    Dot,
    Slash,
    CapsLock,
    F1,
    F2,
    F3,
    F4,
    F5,
    F6,
    F7,
    F8,
    F9,
    F10,
    F11,
    F12,
    PrintScreen,
    ScrollLock,
    Pause,
    Insert,
    Home,
    PageUp,
    Delete,
    End,
    PageDown,
    RightArrow,
    LeftArrow,
    DownArrow,
    UpArrow,
    VolumeUp,
    VolumeDown,
    LeftCtrl,
    LeftShift,
    LeftAlt,
    LeftGUI,
    RightCtrl,
    RightShift,
    RightAlt,
    RightGUI,
    Other(u16),
}

/// The HID usage code sent for a key.
pub open spec fn key_code(k: Key) -> u16 {
    match k {
        Key::A => 0x04,
        Key::B => 0x05,
        Key::C => 0x06,
        Key::D => 0x07,
        Key::E => 0x08,
        Key::F => 0x09,
        Key::G => 0x0a,
        Key::H => 0x0b,
        Key::I => 0x0c,
        Key::J => 0x0d,
        Key::K => 0x0e,
        Key::L => 0x0f,
        Key::M => 0x10,
        Key::N => 0x11,
        Key::O => 0x12,
        Key::P => 0x13,
        Key::Q => 0x14,
        Key::R => 0x15,
        Key::S => 0x16,
        Key::T => 0x17,
        Key::U => 0x18,
        Key::V => 0x19,
        Key::W => 0x1a,
        Key::X => 0x1b,
        Key::Y => 0x1c,
        Key::Z => 0x1d,
        Key::Num1 => 0x1e,
        Key::Num2 => 0x1f,
        Key::Num3 => 0x20,
        Key::Num4 => 0x21,
        Key::Num5 => 0x22,
        Key::Num6 => 0x23,
        Key::Num7 => 0x24,
        Key::Num8 => 0x25,
        Key::Num9 => 0x26,
        Key::Num0 => 0x27,
        Key::Enter => 0x28,
        Key::Escape => 0x29,
        Key::Backspace => 0x2a,
        Key::Tab => 0x2b,
        Key::Spacebar => 0x2c,
        Key::Minus => 0x2d,
        Key::Equal => 0x2e,
        Key::LeftBracket => 0x2f,
        Key::RightBracket => 0x30,
        Key::RightSlash => 0x31,
        Key::Hash => 0x32,
        Key::Semicolon => 0x33,
        Key::Comma => 0x36,
        Key::Dot => 0x37,
        Key::Slash => 0x38,
        Key::CapsLock => 0x39,
        Key::F1 => 0x3a,
        Key::F2 => 0x3b,
        Key::F3 => 0x3c,
        Key::F4 => 0x3d,
        Key::F5 => 0x3e,
        Key::F6 => 0x3f,
        Key::F7 => 0x40,
        Key::F8 => 0x41,
        Key::F9 => 0x42,
        Key::F10 => 0x43,
        Key::F11 => 0x44,
        Key::F12 => 0x45,
        Key::PrintScreen => 0x46,
        Key::ScrollLock => 0x47,
        Key::Pause => 0x48,
        Key::Insert => 0x49,
        Key::Home => 0x4a,
        Key::PageUp => 0x4b,
        Key::Delete => 0x4c,
        Key::End => 0x4d,
        Key::PageDown => 0x4e,
        Key::RightArrow => 0x4f,
        Key::LeftArrow => 0x50,
        Key::DownArrow => 0x51,
        Key::UpArrow => 0x52,
        Key::VolumeUp => 0x80,
        Key::VolumeDown => 0x81,
        Key::LeftCtrl => 0xe0,
        Key::LeftShift => 0xe1,
        Key::LeftAlt => 0xe2,
        Key::LeftGUI => 0xe3,
        Key::RightCtrl => 0xe4,
        Key::RightShift => 0xe5,
        Key::RightAlt => 0xe6,
        Key::RightGUI => 0xe7,
        Key::Other(code) => code,
    }
}

impl Key {
    /// The HID usage code sent for this key.
    pub fn discriminant(&self) -> (r: u16)
        ensures
            r == key_code(*self),
    {
        match self {
            Key::A => 0x04,
            Key::B => 0x05,
            Key::C => 0x06,
            Key::D => 0x07,
            Key::E => 0x08,
            Key::F => 0x09,
            Key::G => 0x0a,
            Key::H => 0x0b,
            Key::I => 0x0c,
            Key::J => 0x0d,
            Key::K => 0x0e,
            Key::L => 0x0f,
            Key::M => 0x10,
            Key::N => 0x11,
            Key::O => 0x12,
            Key::P => 0x13,
            Key::Q => 0x14,
            Key::R => 0x15,
            Key::S => 0x16,
            Key::T => 0x17,
            Key::U => 0x18,
            Key::V => 0x19,
            Key::W => 0x1a,
            Key::X => 0x1b,
            Key::Y => 0x1c,
            Key::Z => 0x1d,
            Key::Num1 => 0x1e,
            Key::Num2 => 0x1f,
            Key::Num3 => 0x20,
            Key::Num4 => 0x21,
            Key::Num5 => 0x22,
            Key::Num6 => 0x23,
            Key::Num7 => 0x24,
            Key::Num8 => 0x25,
            Key::Num9 => 0x26,
            Key::Num0 => 0x27,
            Key::Enter => 0x28,
            Key::Escape => 0x29,
            Key::Backspace => 0x2a,
            Key::Tab => 0x2b,
            Key::Spacebar => 0x2c,
            Key::Minus => 0x2d,
            Key::Equal => 0x2e,
            Key::LeftBracket => 0x2f,
            Key::RightBracket => 0x30,
            Key::RightSlash => 0x31,
            Key::Hash => 0x32,
            Key::Semicolon => 0x33,
            Key::Comma => 0x36,
            Key::Dot => 0x37,
            Key::Slash => 0x38,
            Key::CapsLock => 0x39,
            Key::F1 => 0x3a,
            Key::F2 => 0x3b,
            Key::F3 => 0x3c,
            Key::F4 => 0x3d,
            Key::F5 => 0x3e,
            Key::F6 => 0x3f,
            Key::F7 => 0x40,
            Key::F8 => 0x41,
            Key::F9 => 0x42,
            Key::F10 => 0x43,
            Key::F11 => 0x44,
            Key::F12 => 0x45,
            Key::PrintScreen => 0x46,
            Key::ScrollLock => 0x47,
            Key::Pause => 0x48,
            Key::Insert => 0x49,
            Key::Home => 0x4a,
            Key::PageUp => 0x4b,
            Key::Delete => 0x4c,
            Key::End => 0x4d,
            Key::PageDown => 0x4e,
            Key::RightArrow => 0x4f,
            Key::LeftArrow => 0x50,
            Key::DownArrow => 0x51,
            Key::UpArrow => 0x52,
            Key::VolumeUp => 0x80,
            Key::VolumeDown => 0x81,
            Key::LeftCtrl => 0xe0,
            Key::LeftShift => 0xe1,
            Key::LeftAlt => 0xe2,
            Key::LeftGUI => 0xe3,
            Key::RightCtrl => 0xe4,
            Key::RightShift => 0xe5,
            Key::RightAlt => 0xe6,
            Key::RightGUI => 0xe7,
            Key::Other(code) => *code,
        }
    }

    /// This key with the given modifiers held.
    pub fn with_mods(self, mods: KeyMods) -> (r: Key)
        ensures
            r == Key::Other(key_code(self) | mods.bits),
    {
        Key::Other(self.discriminant() | mods.bits)
    }
}

/// Modifier keys, as bits 8 to 15 of a key code.
#[derive(Debug, Clone, Copy, PartialEq, Eq, Structural)]
pub struct KeyMods {
    pub bits: u16,
}

pub const LEFT_CTRL: u16 = 0x100;
pub const LEFT_SHIFT: u16 = 0x200;
pub const LEFT_ALT: u16 = 0x400;
pub const LEFT_GUI: u16 = 0x800;
pub const RIGHT_CTRL: u16 = 0x1000;
pub const RIGHT_SHIFT: u16 = 0x2000;
pub const RIGHT_ALT: u16 = 0x4000;
pub const RIGHT_GUI: u16 = 0x8000;

impl KeyMods {
    /// The modifiers whose bits are set in `bits`; bits below 8 are not
    /// modifiers and are dropped.
    pub fn from_bits_truncate(bits: u16) -> (r: KeyMods)
        ensures
            r.bits == bits & 0xff00,
    {
        KeyMods { bits: bits & 0xff00 }
    }

    /// Both sets of modifiers together.
    pub fn union(self, other: KeyMods) -> (r: KeyMods)
        ensures
            r.bits == self.bits | other.bits,
    {
        KeyMods { bits: self.bits | other.bits }
    }
}

impl core::ops::BitOr<KeyMods> for Key {
    type Output = Key;

    fn bitor(self, rhs: KeyMods) -> Key {
        self.with_mods(rhs)
    }
}

impl vstd::std_specs::ops::BitOrSpecImpl<KeyMods> for Key {
    open spec fn obeys_bitor_spec() -> bool {
        true
    }

    open spec fn bitor_req(self, rhs: KeyMods) -> bool {
        true
    }

    open spec fn bitor_spec(self, rhs: KeyMods) -> Key {
        Key::Other(key_code(self) | rhs.bits)
    }
}

impl core::ops::BitOr<Key> for KeyMods {
    type Output = Key;

    fn bitor(self, rhs: Key) -> Key {
        rhs.with_mods(self)
    }
}

impl vstd::std_specs::ops::BitOrSpecImpl<Key> for KeyMods {
    open spec fn obeys_bitor_spec() -> bool {
        true
    }

    open spec fn bitor_req(self, rhs: Key) -> bool {
        true
    }

    open spec fn bitor_spec(self, rhs: Key) -> Key {
        Key::Other(key_code(rhs) | self.bits)
    }
}

/// Consumer-control (media) key.
#[derive(Debug, Clone, Copy, PartialEq, Eq, Structural)]
pub enum ConsumerKey {
    VolumeIncrease,
    VolumeDecrease,
    Other(u16),
}

/// The consumer-control usage code sent for a key.
pub open spec fn consumer_code(k: ConsumerKey) -> u16 {
    match k {
        ConsumerKey::VolumeIncrease => 0xe9,
        ConsumerKey::VolumeDecrease => 0xea,
        ConsumerKey::Other(code) => code,
    }
}

impl ConsumerKey {
    /// The consumer-control usage code sent for this key.
    pub fn discriminant(&self) -> (r: u16)
        ensures
            r == consumer_code(*self),
    {
        match self {
            ConsumerKey::VolumeIncrease => 0xe9,
            ConsumerKey::VolumeDecrease => 0xea,
            ConsumerKey::Other(code) => *code,
        }
    }
}

/// Pointer button.
#[derive(Debug, Clone, Copy, PartialEq, Eq, Structural)]
pub enum MouseButton {
    M1,
    M2,
    M3,
    M4,
    M5,
    Other(i8),
}

/// The button number sent for a pointer button.
pub open spec fn mouse_button_code(b: MouseButton) -> i8 {
    match b {
        MouseButton::M1 => 1,
        MouseButton::M2 => 2,
        MouseButton::M3 => 3,
        MouseButton::M4 => 4,
        MouseButton::M5 => 5,
        MouseButton::Other(code) => code,
    }
}

impl MouseButton {
    /// The button number sent for this button.
    pub fn discriminant(&self) -> (r: i8)
        ensures
            r == mouse_button_code(*self),
    {
        match self {
            MouseButton::M1 => 1,
            MouseButton::M2 => 2,
            MouseButton::M3 => 3,
            MouseButton::M4 => 4,
            MouseButton::M5 => 5,
            MouseButton::Other(code) => *code,
        }
    }
}

/// The success flag of a radio call as a `Result`.
pub fn check_success(success: bool) -> (r: Result<(), Error>)
    ensures
        success <==> r is Ok,
{
    if success {
        Ok(())
    } else {
        Err(Error)
    }
}

/// The radio record, with its status-changed callback registration.
pub struct Bt {
    hnd: usize,
    status_changed_cb: CallbackSlot,
}

impl Bt {
    /// Address of the radio record.
    pub closed spec fn handle(&self) -> usize {
        self.hnd
    }

    /// The status-changed callback registration.
    pub closed spec fn status_slot(&self) -> CallbackSlot {
        self.status_changed_cb
    }

    pub open spec fn wf(&self) -> bool {
        self.handle() != 0 && self.status_slot().wf()
    }

    /// Wraps the opened radio record; a null record is refused.
    pub fn open(hnd: usize) -> (r: Result<Bt, Error>)
        ensures
            hnd == 0 <==> r is Err,
            r matches Ok(bt) ==> bt.wf() && bt.handle() == hnd && !bt.status_slot().stored,
    {
        if hnd == 0 {
            Err(Error)
        } else {
            Ok(Bt { hnd, status_changed_cb: CallbackSlot::new() })
        }
    }

    pub fn as_ptr(&self) -> (r: usize)
        ensures
            r == self.handle(),
    {
        self.hnd
    }

    /// Plans the registration of a status-changed callback.
    pub fn set_status_changed_callback(&mut self) -> (ops: Vec<SlotOp>)
        requires
            old(self).wf(),
        ensures
            final(self).wf(),
            final(self).handle() == old(self).handle(),
            final(self).status_slot().installed,
            old(self).status_slot().stored ==> ops@ == seq![SlotOp::Install, SlotOp::DropPrevious],
            !old(self).status_slot().stored ==> ops@ == seq![SlotOp::Install],
    {
        self.status_changed_cb.register()
    }

    /// Plans the removal of the status-changed callback.
    pub fn unset_status_changed_callback(&mut self) -> (ops: Vec<SlotOp>)
        requires
            old(self).wf(),
        ensures
            final(self).wf(),
            final(self).handle() == old(self).handle(),
            !final(self).status_slot().stored,
            old(self).status_slot().stored ==> ops@ == seq![SlotOp::Uninstall, SlotOp::DropPrevious],
            !old(self).status_slot().stored ==> ops@ == seq![SlotOp::Uninstall],
    {
        self.status_changed_cb.unregister()
    }

    /// Wraps the profile that the HID profile start returned; a null
    /// profile means the start failed.
    pub fn hid_profile_start(&self, profile: usize) -> (r: Result<BleProfileBase, Error>)
        ensures
            profile == 0 <==> r is Err,
            r matches Ok(p) ==> p.handle() == profile && p.radio() == self.handle()
                && !p.restored(),
    {
        if profile == 0 {
            Err(Error)
        } else {
            Ok(BleProfileBase { hnd: profile, bt: self.hnd, guard: ReleaseGuard::new() })
        }
    }
}

/// A running HID profile on the radio; giving it back restores the
/// radio's default profile, once.
pub struct BleProfileBase {
    hnd: usize,
    bt: usize,
    guard: ReleaseGuard,
}

impl BleProfileBase {
    /// Address of the profile instance.
    pub closed spec fn handle(&self) -> usize {
        self.hnd
    }

    /// Address of the radio record the profile runs on.
    pub closed spec fn radio(&self) -> usize {
        self.bt
    }

    /// The default profile was restored.
    pub closed spec fn restored(&self) -> bool {
        self.guard.released
    }

    pub fn as_ptr(&self) -> (r: usize)
        ensures
            r == self.handle(),
    {
        self.hnd
    }

    /// Address of the radio record, for the restore call.
    pub fn radio_ptr(&self) -> (r: usize)
        ensures
            r == self.radio(),
    {
        self.bt
    }

    /// Gives the profile back. The result says whether the foreign
    /// restore-default call must run now: on the first call only, whether
    /// that call is the explicit one or the fallback on drop.
    pub fn restore_default_profile(&mut self) -> (run: bool)
        ensures
            run == !old(self).restored(),
            final(self).restored(),
            final(self).handle() == old(self).handle(),
            final(self).radio() == old(self).radio(),
    {
        self.guard.release()
    }
}

} // verus!
