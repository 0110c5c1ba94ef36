//! Callback bridging. A foreign subsystem holds a (function, context)
//! pair; the context points at storage owned by a registration slot. The
//! slot decides in which order the foreign side is updated and the old
//! storage dropped, and `Bridge` decodes native arguments into the
//! library's types before it calls the stored callable.
use vstd::prelude::*;

use crate::bt::{bt_status_of, BtStatus};
use crate::gui::canvas::Canvas;
use crate::gui::{input_event_of, InputEvent};

verus! {

/// One step of a registration change, in the order it must be performed.
#[derive(Debug, Clone, Copy, PartialEq, Eq, Structural)]
pub enum SlotOp {
    /// Hand the foreign side the new function and a pointer to the new storage.
    Install,
    /// Hand the foreign side a null function and a null context.
    Uninstall,
    /// Drop the storage of the previous registration.
    DropPrevious,
}

/// State of one callback registration with a foreign subsystem.
#[derive(Debug, Clone, Copy, PartialEq, Eq, Structural)]
pub struct CallbackSlot {
    /// The slot owns storage for a callable.
    pub stored: bool,
    /// The foreign side holds a pointer to that storage.
    pub installed: bool,
}

impl CallbackSlot {
    /// The foreign side only ever points at storage the slot owns.
    pub open spec fn wf(self) -> bool {
        self.installed ==> self.stored
    }

    /// A slot with nothing registered.
    pub fn new() -> (r: CallbackSlot)
        ensures
            r.wf(),
            !r.stored,
            !r.installed,
    {
        CallbackSlot { stored: false, installed: false }
    }

    /// Plans a (re-)registration: the foreign side is pointed at the new
    /// storage first, and only then is the previous storage dropped.
    pub fn register(&mut self) -> (ops: Vec<SlotOp>)
        requires
            old(self).wf(),
        ensures
            final(self).wf(),
            final(self).stored,
            final(self).installed,
            old(self).stored ==> ops@ == seq![SlotOp::Install, SlotOp::DropPrevious],
            !old(self).stored ==> ops@ == seq![SlotOp::Install],
    {
        let mut ops: Vec<SlotOp> = Vec::new();
        ops.push(SlotOp::Install);
        if self.stored {
            ops.push(SlotOp::DropPrevious);
        }
        self.stored = true;
        self.installed = true;
        ops
    }

    /// Plans an unregistration: the foreign side gets a null pair first,
    /// and only then is the storage dropped.
    pub fn unregister(&mut self) -> (ops: Vec<SlotOp>)
        requires
            old(self).wf(),
        ensures
            final(self).wf(),
            !final(self).stored,
            !final(self).installed,
            old(self).stored ==> ops@ == seq![SlotOp::Uninstall, SlotOp::DropPrevious],
            !old(self).stored ==> ops@ == seq![SlotOp::Uninstall],
    {
        let mut ops: Vec<SlotOp> = Vec::new();
        ops.push(SlotOp::Uninstall);
        if self.stored {
            ops.push(SlotOp::DropPrevious);
        }
        self.stored = false;
        self.installed = false;
        ops
    }
}

/// A callable kept at a stable place, invoked with native arguments.
pub struct Bridge<F> {
    f: F,
}

impl<F> Bridge<F> {
    /// The callable that the bridge invokes.
    pub closed spec fn callable(&self) -> F {
        self.f
    }

    pub fn new(f: F) -> (r: Bridge<F>)
        ensures
            r.callable() == f,
    {
        Bridge { f }
    }
}

impl<F: Fn(InputEvent)> Bridge<F> {
    /// Invokes the callable with the event that the native type and key
    /// codes encode; unrecognised codes arrive as `Unknown`.
    pub fn invoke_input(&self, type_code: u8, key_code: u8)
        requires
            forall|e: InputEvent| call_requires(self.callable(), (e,)),
        ensures
            call_ensures(self.callable(), (input_event_of(type_code, key_code),), ()),
    {
        let event = InputEvent::from_raw(type_code, key_code);
        (self.f)(event)
    }
}

impl<F: Fn(BtStatus)> Bridge<F> {
    /// Invokes the callable with the status that the native code encodes.
    pub fn invoke_status(&self, code: u8)
        requires
            forall|s: BtStatus| call_requires(self.callable(), (s,)),
        ensures
            call_ensures(self.callable(), (bt_status_of(code),), ()),
    {
        let status = BtStatus::from_raw(code);
        (self.f)(status)
    }
}

impl<F: Fn(&Canvas)> Bridge<F> {
    /// Invokes the callable on the draw surface at the given address.
    pub fn invoke_draw(&self, canvas: usize)
        requires
            canvas != 0,
            forall|c: &Canvas| call_requires(self.callable(), (c,)),
        ensures
            exists|c: Canvas| c@ == canvas && call_ensures(self.callable(), (&c,), ()),
    {
        let surface = Canvas::from_ptr(canvas);
        assert(call_requires(self.callable(), (&surface,)));
        (self.f)(&surface)
    }
}

} // verus!
