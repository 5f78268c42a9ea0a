//! Display driver that borrows its frame buffer: the driver holds an
//! exclusive mutable reference to caller-supplied storage (typically a
//! statically allocated, DMA-visible region) that must outlive the driver.
//! This avoids a second buffer allocation; exclusivity is enforced by the
//! borrow checker, so no other code can touch the buffer while the driver
//! exists, and a second driver borrowing the same buffer cannot be
//! expressed.
use vstd::prelude::*;

use crate::{
    accepts_next, display_wf, draw_display_model, model_after_accept, DisplayError, DisplayModel,
    Interface, Object, DRAW_COMMAND, INIT_COMMAND,
};

verus! {

/// A display driver holding its hardware interface by value and its frame
/// buffer by exclusive reference.  Only constructible through a successful
/// initialization handshake.
pub struct Display<'a> {
    iface: Interface,
    buffer: &'a mut [u8; 1024],
}

impl<'a> Display<'a> {
    /// The driver's mathematical model: its transport state and the current
    /// contents of the borrowed buffer.
    pub closed spec fn model(&self) -> DisplayModel {
        DisplayModel { iface: self.iface@, buffer: (*self.buffer)@ }
    }

    /// Creates and initializes the display driver over caller-supplied
    /// storage.
    ///
    /// Takes ownership of the interface and an exclusive reference to the
    /// buffer, then sends the initialization command.  If the transport
    /// accepts it, returns a fully-constructed display that borrows the
    /// buffer, whose contents are left as the caller supplied them; if the
    /// transport rejects it, returns `Err(IfaceError)`, the interface is
    /// consumed and the buffer is released unchanged.  Construction fails
    /// atomically: no partially-initialized display is observable.
    pub fn new(iface: Interface, buffer: &'a mut [u8; 1024]) -> (r: Result<
        Display<'a>,
        DisplayError,
    >)
        ensures
            r is Ok <==> accepts_next(iface@),
            r matches Ok(d) ==> d.model() == (DisplayModel {
                iface: model_after_accept(iface@, INIT_COMMAND),
                buffer: old(buffer)@,
            }) && display_wf(d.model()),
            r is Err ==> *final(buffer) == *old(buffer),
            r matches Err(e) ==> e == DisplayError::IfaceError,
    {
        let mut iface = iface;
        match iface.write_cmd(INIT_COMMAND) {
            Ok(()) => {
                let d = Display { iface, buffer };
                proof {
                    assert(d.model().iface.sent.contains(INIT_COMMAND)) by {
                        assert(d.model().iface.sent.last() == INIT_COMMAND);
                    }
                }
                Ok(d)
            },
            Err(()) => Err(DisplayError::IfaceError),
        }
    }

    /// Draw to the screen.
    ///
    /// Consumes the object and pushes one draw command to the interface.
    /// A transport rejection surfaces as `Err(IfaceError)`; the borrowed
    /// buffer is left in its previous, defined state either way, and the
    /// display stays fully initialized.
    pub fn draw(&mut self, obj: Object) -> (r: Result<(), DisplayError>)
        ensures
            r is Ok <==> accepts_next(old(self).model().iface),
            final(self).model() == draw_display_model(old(self).model()),
            r matches Err(e) ==> e == DisplayError::IfaceError,
            display_wf(old(self).model()) ==> display_wf(final(self).model()),
    {
        let r = match self.iface.write_cmd(DRAW_COMMAND) {
            Ok(()) => Ok(()),
            Err(()) => Err(DisplayError::IfaceError),
        };
        proof {
            if old(self).model().iface.sent.contains(INIT_COMMAND) {
                let i = choose|i: int|
                    0 <= i < old(self).model().iface.sent.len() && old(self).model().iface.sent[i]
                        == INIT_COMMAND;
                assert(self.model().iface.sent[i] == INIT_COMMAND);
            }
        }
        r
    }

    /// How many command bytes this display's transport has accepted.
    pub fn sent_len(&self) -> (n: usize)
        ensures
            n == self.model().iface.sent.len(),
    {
        self.iface.sent_len()
    }

    /// The `i`-th command byte this display's transport accepted.
    pub fn sent_byte(&self, i: usize) -> (b: u8)
        requires
            i < self.model().iface.sent.len(),
        ensures
            b == self.model().iface.sent[i as int],
    {
        self.iface.sent_byte(i)
    }
}

} // verus!
