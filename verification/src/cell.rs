//! The callback cell and the trampoline that drives it.
//!
//! A [`CallbackCell`] bundles the user callback with the user state it works
//! on; exactly one cell exists per active stream, and it is the sole channel
//! through which a delivery reaches user code. The [`trampoline`] is the
//! single point of contact with the foreign delivery layer: it checks the
//! two inputs the foreign layer hands over (a frame and the opaque token
//! standing for the cell), and either drives the callback or reports a
//! fatal contract violation that the embedding must answer by terminating
//! the process, never by returning an error into foreign stack frames.

use vstd::prelude::*;

use crate::frame::{view_of, FrameDescriptor, FrameView};

verus! {

/// Whether a callback accepts every frame view and every state value.
///
/// Callbacks run against frames the caller never chooses, so a stream only
/// accepts callbacks that are callable on all inputs.
pub open spec fn callback_total<F, U>(f: F) -> bool where F: Fn(&FrameView, &U) -> U {
    forall|v: &FrameView, s: &U| #[trigger] call_requires(f, (v, s))
}

/// The user callback and its state, owned together as one unit.
///
/// The cell lives exactly as long as the stream it serves: it is created by
/// the one successful start operation and released exactly once, strictly
/// after delivery has been stopped.
pub struct CallbackCell<F, U> {
    func: F,
    data: U,
}

impl<F, U> CallbackCell<F, U> {
    /// The callback the cell owns.
    pub closed spec fn callback(&self) -> F {
        self.func
    }

    /// The user state the cell owns.
    pub closed spec fn state(&self) -> U {
        self.data
    }

    /// Bundles a callback with its initial state.
    pub fn new(func: F, data: U) -> (c: CallbackCell<F, U>)
        ensures
            c.callback() == func,
            c.state() == data,
    {
        CallbackCell { func, data }
    }

    /// Releases the cell, dropping the callback and handing the user state
    /// back to the caller.
    pub fn into_state(self) -> (u: U)
        ensures
            u == self.state(),
    {
        self.data
    }
}

impl<F, U> CallbackCell<F, U> where F: Fn(&FrameView, &U) -> U {
    /// Runs the callback once on the given view, replacing the user state
    /// with what the callback returns.
    pub fn invoke(&mut self, view: &FrameView)
        requires
            callback_total::<F, U>(old(self).callback()),
        ensures
            final(self).callback() == old(self).callback(),
            call_ensures(old(self).callback(), (view, &old(self).state()), final(self).state()),
    {
        let next = (self.func)(view, &self.data);
        self.data = next;
    }
}

/// What one simulated delivery came to.
#[derive(Clone, Copy, Debug, PartialEq, Eq, Structural)]
pub enum TrampolineOutcome {
    /// The callback ran on the delivered frame.
    Delivered,
    /// The foreign layer handed over no frame: an unrecoverable contract
    /// violation; the embedding must terminate the process.
    FatalNullFrame,
    /// The foreign layer handed over no cell token: an unrecoverable
    /// contract violation; the embedding must terminate the process.
    FatalNullToken,
}

impl TrampolineOutcome {
    /// Whether the invocation found a contract violation the process must
    /// not survive.
    pub open spec fn is_fatal(self) -> bool {
        self != TrampolineOutcome::Delivered
    }

    /// Whether the invocation found a contract violation the process must
    /// not survive.
    pub fn fatal(&self) -> (b: bool)
        ensures
            b == self.is_fatal(),
    {
        match self {
            TrampolineOutcome::Delivered => false,
            _ => true,
        }
    }
}

/// One delivery from the foreign layer, bridged to typed user code.
///
/// `frame` and `token` model the two inputs of the foreign callback, either
/// of which may be absent. An absent input is an unrecoverable violation of
/// the contract with the foreign layer: the trampoline reports it as a
/// fatal outcome without touching user code, and the embedding terminates
/// the process. With both inputs present, the callback runs on a view of
/// the delivered frame and the cell's state moves to what it returns.
pub fn trampoline<F, U>(frame: Option<&FrameDescriptor>, token: &mut Option<CallbackCell<F, U>>) -> (o:
    TrampolineOutcome) where F: Fn(&FrameView, &U) -> U
    requires
        (*old(token)) matches Some(cell) ==> callback_total::<F, U>(cell.callback()),
    ensures
        frame is None ==> o == TrampolineOutcome::FatalNullFrame && *final(token) == *old(token),
        frame is Some && (*old(token)) is None ==> o == TrampolineOutcome::FatalNullToken
            && (*final(token)) is None,
        frame matches Some(d) ==> ((*old(token)) matches Some(cell) ==> (o
            == TrampolineOutcome::Delivered && ((*final(token)) matches Some(after)
            && after.callback() == cell.callback() && call_ensures(
            cell.callback(),
            (&view_of(d), &cell.state()),
            after.state(),
        )))),
{
    match frame {
        None => TrampolineOutcome::FatalNullFrame,
        Some(d) => {
            match token {
                None => TrampolineOutcome::FatalNullToken,
                Some(cell) => {
                    let view = FrameView::new(d);
                    cell.invoke(&view);
                    TrampolineOutcome::Delivered
                },
            }
        },
    }
}

} // verus!
