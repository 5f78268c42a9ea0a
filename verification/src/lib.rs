//! A minimal display-driver pattern library for a no-OS, interrupt-driven
//! setting, contrasting two ownership strategies for the frame buffer:
//!
//! * [`owned::Display`] keeps a fixed-size buffer inside the driver object;
//! * [`borrowed::Display`] holds an exclusive reference to caller-supplied
//!   storage that outlives the driver.
//!
//! Both variants take ownership of a transport handle ([`Interface`]) and are
//! only constructible through a successful initialization handshake, so no
//! partially-initialized driver is ever observable.  The [`slot`] module
//! holds the process-wide "current driver" state machine shared between a
//! startup context and an asynchronous event handler.
#![allow(unused_imports)]
use vstd::prelude::*;

pub mod borrowed;
pub mod owned;
pub mod slot;

verus! {

/// Command byte sent to the hardware during the initialization handshake.
pub const INIT_COMMAND: u8 = 0;

/// Command byte sent to the hardware for each draw request.
pub const DRAW_COMMAND: u8 = 1;

/// Size in bytes of a frame buffer, for both ownership variants.
pub const BUFFER_LEN: usize = 1024;

/// Mathematical model of a transport handle: the responses the hardware will
/// give to the next command sends, and the log of command bytes accepted so
/// far.
pub struct IfaceModel {
    /// Scripted responses, consumed front to back; once exhausted every
    /// further send is accepted.
    pub plan: Seq<bool>,
    /// Command bytes the hardware has accepted, in send order.
    pub sent: Seq<u8>,
}

/// Whether the transport will accept the next command send.
pub open spec fn accepts_next(m: IfaceModel) -> bool {
    m.plan.len() == 0 || m.plan[0]
}

/// The transport model after a successful send of `cmd`.
pub open spec fn model_after_accept(m: IfaceModel, cmd: u8) -> IfaceModel {
    IfaceModel {
        plan: if m.plan.len() == 0 {
            m.plan
        } else {
            m.plan.skip(1)
        },
        sent: m.sent.push(cmd),
    }
}

/// The transport model after a rejected send: the response is consumed and
/// nothing reaches the hardware.
pub open spec fn model_after_reject(m: IfaceModel) -> IfaceModel {
    IfaceModel { plan: m.plan.skip(1), sent: m.sent }
}

/// A handle to the underlying hardware transport.  Commands are sent one
/// byte at a time and each send may be rejected by the hardware; the handle
/// is exclusively owned by one display driver after construction.
pub struct Interface {
    plan: Vec<bool>,
    sent: Vec<u8>,
}

impl View for Interface {
    type V = IfaceModel;

    closed spec fn view(&self) -> IfaceModel {
        IfaceModel { plan: self.plan@, sent: self.sent@ }
    }
}

impl Interface {
    /// Creates a transport handle whose sends are answered by `plan`, front
    /// to back; sends past the end of the plan are accepted.
    pub fn new(plan: Vec<bool>) -> (iface: Interface)
        ensures
            iface@.plan == plan@,
            iface@.sent == Seq::<u8>::empty(),
    {
        Interface { plan, sent: Vec::new() }
    }

    /// Sends one command byte to the hardware.  The send is accepted exactly
    /// when the transport's next scripted response allows it; an accepted
    /// byte is appended to the log of sent commands, a rejected one is not.
    pub fn write_cmd(&mut self, cmd: u8) -> (r: Result<(), ()>)
        ensures
            r is Ok <==> accepts_next(old(self)@),
            accepts_next(old(self)@) ==> final(self)@ == model_after_accept(old(self)@, cmd),
            !accepts_next(old(self)@) ==> final(self)@ == model_after_reject(old(self)@),
    {
        let accept = if self.plan.len() == 0 {
            true
        } else {
            self.plan.remove(0)
        };
        proof {
            assert(self.plan@ =~= if old(self).plan@.len() == 0 {
                old(self).plan@
            } else {
                old(self).plan@.skip(1)
            });
        }
        if accept {
            self.sent.push(cmd);
            Ok(())
        } else {
            Err(())
        }
    }

    /// How many command bytes the hardware has accepted so far.
    pub fn sent_len(&self) -> (n: usize)
        ensures
            n == self@.sent.len(),
    {
        self.sent.len()
    }

    /// The `i`-th command byte the hardware accepted.
    pub fn sent_byte(&self, i: usize) -> (b: u8)
        requires
            i < self@.sent.len(),
        ensures
            b == self@.sent[i as int],
    {
        self.sent[i]
    }
}

/// The errors a display driver reports.
#[derive(Debug)]
pub enum DisplayError {
    /// The transport rejected a command send.
    IfaceError,
}

/// An opaque draw command payload, constructed fresh per draw request.
pub struct Object;

/// Mathematical model of a display driver: its transport handle and the
/// contents of its frame buffer.
pub struct DisplayModel {
    pub iface: IfaceModel,
    pub buffer: Seq<u8>,
}

/// A frame buffer's contents right after construction: all zero.
pub open spec fn zero_buffer() -> Seq<u8> {
    Seq::new(BUFFER_LEN as nat, |i: int| 0u8)
}

/// A fully-initialized display: its buffer has the fixed size and the
/// initialization command reached the hardware.  Every display either
/// ownership variant hands out satisfies this; no partially-constructed
/// display is observable.
pub open spec fn display_wf(d: DisplayModel) -> bool {
    &&& d.buffer.len() == BUFFER_LEN
    &&& d.iface.sent.contains(INIT_COMMAND)
}

/// The model of an owned-variant display constructed from a transport in
/// state `m` (which must have accepted the initialization command).
pub open spec fn init_display_model(m: IfaceModel) -> DisplayModel {
    DisplayModel { iface: model_after_accept(m, INIT_COMMAND), buffer: zero_buffer() }
}

/// The model of a display after one draw request: the draw command is
/// pushed to the transport and the buffer is left as it was, whether or not
/// the transport accepted the send.
pub open spec fn draw_display_model(d: DisplayModel) -> DisplayModel {
    DisplayModel {
        iface: if accepts_next(d.iface) {
            model_after_accept(d.iface, DRAW_COMMAND)
        } else {
            model_after_reject(d.iface)
        },
        buffer: d.buffer,
    }
}

/// Law: a draw's publicly observable behavior depends only on the transport,
/// never on which variant owns the buffer or on what the buffer holds.
/// Displays whose transports agree accept or reject a draw together, their
/// transports agree afterwards, and neither buffer is touched.
pub proof fn lemma_draw_agrees_across_buffers(d1: DisplayModel, d2: DisplayModel)
    requires
        d1.iface == d2.iface,
    ensures
        accepts_next(d1.iface) <==> accepts_next(d2.iface),
        draw_display_model(d1).iface == draw_display_model(d2).iface,
        draw_display_model(d1).buffer == d1.buffer,
        draw_display_model(d2).buffer == d2.buffer,
{
}

/// Law: whatever transport an owned-variant display was constructed from,
/// its fresh buffer has exactly the fixed size, every byte of it is zero,
/// and the display is fully initialized.
pub proof fn lemma_fresh_owned_buffer_zeroed(m: IfaceModel)
    ensures
        init_display_model(m).buffer.len() == BUFFER_LEN,
        forall|i: int| 0 <= i < BUFFER_LEN ==> init_display_model(m).buffer[i] == 0u8,
        display_wf(init_display_model(m)),
{
    assert(init_display_model(m).iface.sent.last() == INIT_COMMAND);
}

} // verus!
