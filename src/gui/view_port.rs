//! The view-port: a drawing and input surface registered with the display
//! record, with its two callback registrations.
use vstd::prelude::*;

use crate::bridge::{CallbackSlot, SlotOp};
use crate::lifecycle::ReleaseGuard;
use crate::Error;

verus! {

/// A view-port handle with its attachment, release and callback state.
pub struct ViewPort {
    hnd: usize,
    attached: bool,
    enabled: bool,
    guard: ReleaseGuard,
    draw_cb: CallbackSlot,
    input_cb: CallbackSlot,
}

impl ViewPort {
    /// Address of the view-port.
    pub closed spec fn handle(&self) -> usize {
        self.hnd
    }

    /// The view-port is attached to the display record.
    pub closed spec fn attached(&self) -> bool {
        self.attached
    }

    /// The view-port is drawn and receives input.
    pub closed spec fn enabled(&self) -> bool {
        self.enabled
    }

    /// The view-port was freed.
    pub closed spec fn freed(&self) -> bool {
        self.guard.released
    }

    /// The draw callback registration.
    pub closed spec fn draw_slot(&self) -> CallbackSlot {
        self.draw_cb
    }

    /// The input callback registration.
    pub closed spec fn input_slot(&self) -> CallbackSlot {
        self.input_cb
    }

    pub open spec fn wf(&self) -> bool {
        self.handle() != 0 && self.draw_slot().wf() && self.input_slot().wf()
    }

    /// Wraps a freshly allocated view-port; a null allocation is refused.
    pub fn new(hnd: usize) -> (r: Result<ViewPort, Error>)
        ensures
            hnd == 0 <==> r is Err,
            r matches Ok(v) ==> v.wf() && v.handle() == hnd && !v.attached() && v.enabled()
                && !v.freed() && !v.draw_slot().stored && !v.input_slot().stored,
    {
        if hnd == 0 {
            Err(Error)
        } else {
            Ok(
                ViewPort {
                    hnd,
                    attached: false,
                    enabled: true,
                    guard: ReleaseGuard::new(),
                    draw_cb: CallbackSlot::new(),
                    input_cb: CallbackSlot::new(),
                },
            )
        }
    }

    pub fn as_ptr(&self) -> (r: usize)
        ensures
            r == self.handle(),
    {
        self.hnd
    }

    pub fn raw(&self) -> (r: usize)
        ensures
            r == self.handle(),
    {
        self.hnd
    }

    /// Whether the view-port is attached to the display record.
    pub fn is_attached(&self) -> (r: bool)
        ensures
            r == self.attached(),
    {
        self.attached
    }

    /// Whether the view-port was freed.
    pub fn is_freed(&self) -> (r: bool)
        ensures
            r == self.freed(),
    {
        self.guard.released
    }

    pub(crate) fn mark_attached(&mut self, attached: bool)
        ensures
            final(self).attached() == attached,
            final(self).handle() == old(self).handle(),
            final(self).enabled() == old(self).enabled(),
            final(self).freed() == old(self).freed(),
            final(self).draw_slot() == old(self).draw_slot(),
            final(self).input_slot() == old(self).input_slot(),
    {
        self.attached = attached;
    }

    /// Records whether the view-port is drawn and receives input.
    pub fn set_enabled(&mut self, enabled: bool)
        ensures
            final(self).enabled() == enabled,
            final(self).handle() == old(self).handle(),
            final(self).attached() == old(self).attached(),
            final(self).freed() == old(self).freed(),
            final(self).draw_slot() == old(self).draw_slot(),
            final(self).input_slot() == old(self).input_slot(),
    {
        self.enabled = enabled;
    }

    /// Plans the registration of a draw callback.
    pub fn set_draw_callback(&mut self) -> (ops: Vec<SlotOp>)
        requires
            old(self).wf(),
        ensures
            final(self).wf(),
            final(self).handle() == old(self).handle(),
            final(self).attached() == old(self).attached(),
            final(self).freed() == old(self).freed(),
            final(self).draw_slot().installed,
            final(self).input_slot() == old(self).input_slot(),
            old(self).draw_slot().stored ==> ops@ == seq![SlotOp::Install, SlotOp::DropPrevious],
            !old(self).draw_slot().stored ==> ops@ == seq![SlotOp::Install],
    {
        self.draw_cb.register()
    }

    /// Plans the registration of an input callback.
    pub fn set_input_callback(&mut self) -> (ops: Vec<SlotOp>)
        requires
            old(self).wf(),
        ensures
            final(self).wf(),
            final(self).handle() == old(self).handle(),
            final(self).attached() == old(self).attached(),
            final(self).freed() == old(self).freed(),
            final(self).input_slot().installed,
            final(self).draw_slot() == old(self).draw_slot(),
            old(self).input_slot().stored ==> ops@ == seq![SlotOp::Install, SlotOp::DropPrevious],
            !old(self).input_slot().stored ==> ops@ == seq![SlotOp::Install],
    {
        self.input_cb.register()
    }

    /// Gives the view-port back. It must be detached from the display
    /// record first. The result says whether the foreign free must run
    /// now: on the first call only, explicit or on drop.
    pub fn free(&mut self) -> (run: bool)
        requires
            !old(self).attached(),
        ensures
            run == !old(self).freed(),
            final(self).freed(),
            !final(self).attached(),
            final(self).handle() == old(self).handle(),
    {
        self.guard.release()
    }
}

} // verus!
