//! Display driver that owns its frame buffer: the buffer is allocated as
//! part of the driver object, so the driver is fully self-contained and
//! trivial to move or store, at the cost of carrying its own storage.
use vstd::prelude::*;

use crate::{
    accepts_next, display_wf, draw_display_model, init_display_model, zero_buffer, DisplayError,
    DisplayModel, Interface, Object, BUFFER_LEN, DRAW_COMMAND, INIT_COMMAND,
};

verus! {

/// A display driver holding its hardware interface and a fixed-size frame
/// buffer by value.  Only constructible through a successful initialization
/// handshake; no other code can reach the buffer while the driver exists.
pub struct Display {
    iface: Interface,
    buffer: [u8; 1024],
}

impl View for Display {
    type V = DisplayModel;

    closed spec fn view(&self) -> DisplayModel {
        DisplayModel { iface: self.iface@, buffer: self.buffer@ }
    }
}

impl Display {
    /// Creates and initializes the display driver.
    ///
    /// Takes ownership of the interface and sends the initialization
    /// command.  If the transport accepts it, returns a fully-constructed
    /// display owning the interface and a newly zero-initialized buffer;
    /// if the transport rejects it, returns `Err(IfaceError)` and the
    /// interface is consumed.  Construction fails atomically: no
    /// partially-initialized display is observable.
    pub fn new(iface: Interface) -> (r: Result<Display, DisplayError>)
        ensures
            r is Ok <==> accepts_next(iface@),
            r matches Ok(d) ==> d@ == init_display_model(iface@) && display_wf(d@),
            r matches Err(e) ==> e == DisplayError::IfaceError,
    {
        let mut iface = iface;
        match iface.write_cmd(INIT_COMMAND) {
            Ok(()) => {
                let d = Display { iface, buffer: [0u8; 1024] };
                proof {
                    assert(d@.buffer =~= zero_buffer());
                    assert(d@.iface.sent.contains(INIT_COMMAND)) by {
                        assert(d@.iface.sent.last() == INIT_COMMAND);
                    }
                }
                Ok(d)
            },
            Err(()) => Err(DisplayError::IfaceError),
        }
    }

    /// Draw to the screen.
    ///
    /// Consumes the object and pushes one draw command to the interface.
    /// A transport rejection surfaces as `Err(IfaceError)`; the frame
    /// buffer is left in its previous, defined state either way, and the
    /// display stays fully initialized.
    pub fn draw(&mut self, obj: Object) -> (r: Result<(), DisplayError>)
        ensures
            r is Ok <==> accepts_next(old(self)@.iface),
            final(self)@ == draw_display_model(old(self)@),
            r matches Err(e) ==> e == DisplayError::IfaceError,
            display_wf(old(self)@) ==> display_wf(final(self)@),
    {
        let r = match self.iface.write_cmd(DRAW_COMMAND) {
            Ok(()) => Ok(()),
            Err(()) => Err(DisplayError::IfaceError),
        };
        proof {
            if old(self)@.iface.sent.contains(INIT_COMMAND) {
                let i = choose|i: int|
                    0 <= i < old(self)@.iface.sent.len() && old(self)@.iface.sent[i]
                        == INIT_COMMAND;
                assert(self@.iface.sent[i] == INIT_COMMAND);
            }
        }
        r
    }

    /// The frame buffer's size in bytes.
    pub fn buffer_len(&self) -> (n: usize)
        ensures
            n == self@.buffer.len(),
            n == BUFFER_LEN,
    {
        self.buffer.len()
    }

    /// A copy of the `i`-th byte of the frame buffer.  The buffer itself
    /// stays exclusively owned by the display.
    pub fn buffer_byte(&self, i: usize) -> (b: u8)
        requires
            i < self@.buffer.len(),
        ensures
            b == self@.buffer[i as int],
    {
        self.buffer[i]
    }

    /// How many command bytes this display's transport has accepted.
    pub fn sent_len(&self) -> (n: usize)
        ensures
            n == self@.iface.sent.len(),
    {
        self.iface.sent_len()
    }

    /// The `i`-th command byte this display's transport accepted.
    pub fn sent_byte(&self, i: usize) -> (b: u8)
        requires
            i < self@.iface.sent.len(),
        ensures
            b == self@.iface.sent[i as int],
    {
        self.iface.sent_byte(i)
    }
}

} // verus!
