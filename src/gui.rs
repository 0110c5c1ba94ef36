//! The display side: input vocabulary, fonts and orientations with their
//! native codes, and the model of the display record.
use vstd::prelude::*;

pub mod canvas;
pub mod view_port;

use crate::gui::view_port::ViewPort;
use crate::Error;

verus! {

/// Physical button of the device.
#[derive(Debug, Clone, Copy, PartialEq, Eq, Structural)]
pub enum InputKey {
    Up,
    Down,
    Right,
    Left,
    Center,
    Back,
    Unknown(u8),
}

/// Native key code to key: codes 0 to 5 name the six buttons, any other
/// code is kept in `Unknown`.
pub open spec fn input_key_of(code: u8) -> InputKey {
    if code == 0 {
        InputKey::Up
    } else if code == 1 {
        InputKey::Down
    } else if code == 2 {
        InputKey::Right
    } else if code == 3 {
        InputKey::Left
    } else if code == 4 {
        InputKey::Center
    } else if code == 5 {
        InputKey::Back
    } else {
        InputKey::Unknown(code)
    }
}

impl InputKey {
    /// Decodes a native key code.
    pub fn from_raw(code: u8) -> (r: InputKey)
        ensures
            r == input_key_of(code),
    {
        match code {
            0 => InputKey::Up,
            1 => InputKey::Down,
            2 => InputKey::Right,
            3 => InputKey::Left,
            4 => InputKey::Center,
            5 => InputKey::Back,
            _ => InputKey::Unknown(code),
        }
    }
}

/// Kind of button transition.
#[derive(Debug, Clone, Copy, PartialEq, Eq, Structural)]
pub enum InputType {
    Press,
    Release,
    Short,
    Long,
    Repeat,
    Unknown(u8),
}

/// Native transition code to transition: 0 to 4 are the known kinds, any
/// other code is kept in `Unknown`.
pub open spec fn input_type_of(code: u8) -> InputType {
    if code == 0 {
        InputType::Press
    } else if code == 1 {
        InputType::Release
    } else if code == 2 {
        InputType::Short
    } else if code == 3 {
        InputType::Long
    } else if code == 4 {
        InputType::Repeat
    } else {
        InputType::Unknown(code)
    }
}

impl InputType {
    /// Decodes a native transition code.
    pub fn from_raw(code: u8) -> (r: InputType)
        ensures
            r == input_type_of(code),
    {
        match code {
            0 => InputType::Press,
            1 => InputType::Release,
            2 => InputType::Short,
            3 => InputType::Long,
            4 => InputType::Repeat,
            _ => InputType::Unknown(code),
        }
    }
}

/// One button transition, as delivered by the input subsystem.
#[derive(Debug, Clone, Copy, PartialEq, Eq, Structural)]
pub struct InputEvent {
    pub type_: InputType,
    pub key: InputKey,
}

/// The event that a native (type, key) code pair encodes.
pub open spec fn input_event_of(type_code: u8, key_code: u8) -> InputEvent {
    InputEvent { type_: input_type_of(type_code), key: input_key_of(key_code) }
}

impl InputEvent {
    /// Decodes a native event; every code pair gives an event.
    pub fn from_raw(type_code: u8, key_code: u8) -> (r: InputEvent)
        ensures
            r == input_event_of(type_code, key_code),
    {
        InputEvent { type_: InputType::from_raw(type_code), key: InputKey::from_raw(key_code) }
    }
}

/// Every native code pair decodes to an event (codes past the known ones
/// land in `Unknown`, with the code kept), and distinct pairs decode to
/// distinct events, so nothing the input subsystem sends is lost or merged.
pub proof fn lemma_input_decoding(t1: u8, k1: u8, t2: u8, k2: u8)
    ensures
        t1 > 4 ==> input_type_of(t1) == InputType::Unknown(t1),
        k1 > 5 ==> input_key_of(k1) == InputKey::Unknown(k1),
        input_event_of(t1, k1) == input_event_of(t2, k2) ==> t1 == t2 && k1 == k2,
{
}

/// Text font of the draw surface.
#[derive(Debug, Clone, Copy, PartialEq, Eq, Structural)]
pub enum Font {
    Primary,
    Secondary,
    Keyboard,
    BigNumbers,
}

/// The native code of a font.
pub open spec fn font_code(f: Font) -> u8 {
    match f {
        Font::Primary => 0,
        Font::Secondary => 1,
        Font::Keyboard => 2,
        Font::BigNumbers => 3,
    }
}

impl Font {
    /// The native code of this font.
    pub fn to_raw(&self) -> (r: u8)
        ensures
            r == font_code(*self),
    {
        match self {
            Font::Primary => 0,
            Font::Secondary => 1,
            Font::Keyboard => 2,
            Font::BigNumbers => 3,
        }
    }
}

/// Screen orientation of a view-port.
#[derive(Debug, Clone, Copy, PartialEq, Eq, Structural)]
pub enum Orientation {
    Horizontal,
    HorizontalFlip,
    Vertical,
    VerticalFlip,
}

/// The native code of an orientation.
pub open spec fn orientation_code(o: Orientation) -> u8 {
    match o {
        Orientation::Horizontal => 0,
        Orientation::HorizontalFlip => 1,
        Orientation::Vertical => 2,
        Orientation::VerticalFlip => 3,
    }
}

impl Orientation {
    /// The native code of this orientation.
    pub fn to_raw(&self) -> (r: u8)
        ensures
            r == orientation_code(*self),
    {
        match self {
            Orientation::Horizontal => 0,
            Orientation::HorizontalFlip => 1,
            Orientation::Vertical => 2,
            Orientation::VerticalFlip => 3,
        }
    }
}

/// The display record, with the one view-port attached to it.
pub struct Gui {
    hnd: usize,
    view_port: Option<usize>,
}

impl Gui {
    /// Address of the display record.
    pub closed spec fn handle(&self) -> usize {
        self.hnd
    }

    /// Address of the attached view-port, if any.
    pub closed spec fn attached(&self) -> Option<usize> {
        self.view_port
    }

    /// Wraps the opened display record; a null record is refused.
    pub fn open(hnd: usize) -> (r: Result<Gui, Error>)
        ensures
            hnd == 0 <==> r is Err,
            r matches Ok(g) ==> g.handle() == hnd && g.attached() is None,
    {
        if hnd == 0 {
            Err(Error)
        } else {
            Ok(Gui { hnd, view_port: None })
        }
    }

    pub fn as_ptr(&self) -> (r: usize)
        ensures
            r == self.handle(),
    {
        self.hnd
    }

    /// Attaches a view-port. Refused while another one is attached, or
    /// when the view-port is attached elsewhere or already freed; on `Ok`
    /// the caller performs the foreign attach.
    pub fn add_view_port(&mut self, view_port: &mut ViewPort) -> (r: Result<(), Error>)
        ensures
            r is Ok <==> (old(self).attached() is None && !old(view_port).attached()
                && !old(view_port).freed()),
            r is Ok ==> final(self).attached() == Some(old(view_port).handle())
                && final(view_port).attached(),
            r is Err ==> final(self).attached() == old(self).attached()
                && final(view_port).attached() == old(view_port).attached(),
            final(self).handle() == old(self).handle(),
            final(view_port).handle() == old(view_port).handle(),
            final(view_port).freed() == old(view_port).freed(),
    {
        if self.view_port.is_some() || view_port.is_attached() || view_port.is_freed() {
            return Err(Error);
        }
        self.view_port = Some(view_port.as_ptr());
        view_port.mark_attached(true);
        Ok(())
    }

    /// Detaches the view-port if it is the attached one. The result says
    /// whether the caller must perform the foreign detach.
    pub fn remove_view_port(&mut self, view_port: &mut ViewPort) -> (detach: bool)
        ensures
            detach <==> old(self).attached() == Some(old(view_port).handle()),
            detach ==> final(self).attached() is None && !final(view_port).attached(),
            !detach ==> final(self).attached() == old(self).attached()
                && final(view_port).attached() == old(view_port).attached(),
            final(self).handle() == old(self).handle(),
            final(view_port).handle() == old(view_port).handle(),
            final(view_port).freed() == old(view_port).freed(),
    {
        let hnd = view_port.as_ptr();
        let detach = match self.view_port {
            Some(attached) => attached == hnd,
            None => false,
        };
        if detach {
            self.view_port = None;
            view_port.mark_attached(false);
        }
        detach
    }
}

} // verus!
