//! The process-wide "current driver" slot shared between the startup context
//! and the asynchronous hardware event handler.
//!
//! The slot is either Uninitialized (holds no display) or Initialized (holds
//! exactly one fully-valid display).  Only the startup context transitions
//! out of Uninitialized, by installing the result of a successful
//! initialization; the event handler performs one draw per event when the
//! slot is Initialized and silently drops the event otherwise.  All access
//! goes through `&mut self` methods, so the two contexts can never interleave
//! within an access; on bare metal the caller provides that exclusivity by
//! masking interrupts around each call.
use vstd::prelude::*;

use crate::owned::Display;
use crate::{
    accepts_next, display_wf, draw_display_model, init_display_model, DisplayError, DisplayModel,
    IfaceModel, Interface, Object, INIT_COMMAND,
};

verus! {

/// One step taken on the shared slot: the startup context's single
/// initialization attempt, carrying the transport it uses, or one hardware
/// draw-trigger event.
pub enum SlotEvent {
    Init(IfaceModel),
    Draw,
}

/// What every context observes of the slot: either Uninitialized, or a
/// fully-valid display.  A partially-constructed display is never visible.
pub open spec fn slot_inv(s: Option<DisplayModel>) -> bool {
    s matches Some(d) ==> display_wf(d)
}

/// The slot's state machine.  An initialization attempt installs a display
/// exactly when the slot is empty and the transport accepts the
/// initialization command, and changes nothing otherwise; a draw event is
/// dropped on an empty slot and performs exactly one draw on a full one.
pub open spec fn slot_step(s: Option<DisplayModel>, ev: SlotEvent) -> Option<DisplayModel> {
    match ev {
        SlotEvent::Init(m) => if s is None && accepts_next(m) {
            Some(init_display_model(m))
        } else {
            s
        },
        SlotEvent::Draw => match s {
            Some(d) => Some(draw_display_model(d)),
            None => None,
        },
    }
}

/// The slot's state after a whole sequence of steps, applied in order.
pub open spec fn slot_run(s: Option<DisplayModel>, evs: Seq<SlotEvent>) -> Option<DisplayModel>
    decreases evs.len(),
{
    if evs.len() == 0 {
        s
    } else {
        slot_run(slot_step(s, evs[0]), evs.skip(1))
    }
}

/// Law: one step of the slot's state machine, whichever context takes it,
/// keeps the slot either Uninitialized or holding a fully-valid display.
pub proof fn lemma_step_preserves_inv(s: Option<DisplayModel>, ev: SlotEvent)
    requires
        slot_inv(s),
    ensures
        slot_inv(slot_step(s, ev)),
{
    match ev {
        SlotEvent::Init(m) => {
            if s is None && accepts_next(m) {
                let d = init_display_model(m);
                assert(d.iface.sent.contains(INIT_COMMAND)) by {
                    assert(d.iface.sent.last() == INIT_COMMAND);
                }
            }
        },
        SlotEvent::Draw => {
            match s {
                Some(d) => {
                    if display_wf(d) {
                        let i = choose|i: int|
                            0 <= i < d.iface.sent.len() && d.iface.sent[i] == INIT_COMMAND;
                        assert(draw_display_model(d).iface.sent[i] == INIT_COMMAND);
                    }
                },
                None => {},
            }
        },
    }
}

/// Law: interleaving any number of event-handler steps with initialization
/// steps, in any order, never lets any context observe a
/// partially-constructed display — after every prefix the slot is either
/// Uninitialized or holds a fully-valid display.
pub proof fn lemma_interleaving_never_partial(s: Option<DisplayModel>, evs: Seq<SlotEvent>)
    requires
        slot_inv(s),
    ensures
        slot_inv(slot_run(s, evs)),
    decreases evs.len(),
{
    if evs.len() != 0 {
        lemma_step_preserves_inv(s, evs[0]);
        lemma_interleaving_never_partial(slot_step(s, evs[0]), evs.skip(1));
    }
}

/// The shared guarded slot: a process-wide optional holder of the current
/// display.  On bare metal a value of this type lives behind a
/// critical-section lock; the `&mut self` methods model the guarded
/// accesses, which exclusivity keeps from interleaving.
pub struct DisplaySlot {
    display: Option<Display>,
}

impl View for DisplaySlot {
    type V = Option<DisplayModel>;

    closed spec fn view(&self) -> Option<DisplayModel> {
        match self.display {
            Some(d) => Some(d@),
            None => None,
        }
    }
}

impl DisplaySlot {
    /// Creates the slot in its Uninitialized state.
    pub fn new() -> (s: DisplaySlot)
        ensures
            s@ is None,
    {
        DisplaySlot { display: None }
    }

    /// Whether the slot currently holds a display.
    pub fn is_initialized(&self) -> (b: bool)
        ensures
            b <==> self@ is Some,
    {
        self.display.is_some()
    }

    /// The startup context's initialization: constructs a display over the
    /// given transport and installs it atomically.  If the transport rejects
    /// the initialization command, returns `Err(IfaceError)` and the slot
    /// stays Uninitialized, so every later draw event is a no-op.
    pub fn init(&mut self, iface: Interface) -> (r: Result<(), DisplayError>)
        requires
            old(self)@ is None,
        ensures
            final(self)@ == slot_step(old(self)@, SlotEvent::Init(iface@)),
            r is Ok <==> accepts_next(iface@),
            r is Err ==> final(self)@ is None,
            r matches Err(e) ==> e == DisplayError::IfaceError,
            slot_inv(final(self)@),
    {
        match Display::new(iface) {
            Ok(d) => {
                self.display = Some(d);
                Ok(())
            },
            Err(e) => Err(e),
        }
    }

    /// The event handler's draw trigger.  While the slot is Uninitialized
    /// the event is silently dropped (returns `None`, nothing changes);
    /// while it is Initialized exactly one draw is performed on the
    /// installed display and its result — including any transport error —
    /// is surfaced without disturbing the handler.
    pub fn on_draw_event(&mut self, obj: Object) -> (r: Option<Result<(), DisplayError>>)
        ensures
            final(self)@ == slot_step(old(self)@, SlotEvent::Draw),
            r is None <==> old(self)@ is None,
            old(self)@ is None ==> final(self)@ == old(self)@,
            old(self)@ matches Some(d) ==> (r matches Some(res) && (res is Ok <==> accepts_next(
                d.iface,
            ))),
            slot_inv(old(self)@) ==> slot_inv(final(self)@),
    {
        let r = match &mut self.display {
            Some(d) => Some(d.draw(obj)),
            None => None,
        };
        proof {
            if slot_inv(old(self)@) {
                lemma_step_preserves_inv(old(self)@, SlotEvent::Draw);
            }
        }
        r
    }
}

} // verus!
