//! A model of the open device session the stream lifecycle runs against.
//!
//! The real session is an open handle to a capture device, owned outside
//! this library. [`DeviceSession`] stands in for it: it answers each
//! operation with a scripted status, tracks which callback cell is
//! registered for delivery, and keeps an ordered [`LifecycleEvent`] log of
//! everything the lifecycle did at the boundary. The log is what makes the
//! teardown ordering observable: stopping delivery is recorded strictly
//! before the cell's release, and [`DeviceSession::inv`] pins down that a
//! cell is never released while its delivery is still running.

use vstd::prelude::*;

use crate::error::UvcError;

verus! {

/// One step of a stream's life at the session boundary, in the order the
/// session saw it.
#[derive(Clone, Copy, Debug, PartialEq, Eq, Structural)]
pub enum LifecycleEvent {
    /// A callback cell was allocated under this token.
    CellAllocated { token: u64 },
    /// Asynchronous delivery began for the cell under this token.
    DeliveryStarted { token: u64 },
    /// Asynchronous delivery stopped for the cell under this token; the
    /// session guarantees no further deliveries once this is recorded.
    DeliveryStopped { token: u64 },
    /// The callback cell under this token was released.
    CellFreed { token: u64 },
}

/// How often an event occurs in a log.
pub open spec fn count(log: Seq<LifecycleEvent>, e: LifecycleEvent) -> nat
    decreases log.len(),
{
    if log.len() == 0 {
        0
    } else {
        count(log.drop_last(), e) + if log.last() == e {
            1nat
        } else {
            0nat
        }
    }
}

/// How often the cell under `t` was allocated.
pub open spec fn allocs(log: Seq<LifecycleEvent>, t: u64) -> nat {
    count(log, LifecycleEvent::CellAllocated { token: t })
}

/// How often delivery began for the cell under `t`.
pub open spec fn starts(log: Seq<LifecycleEvent>, t: u64) -> nat {
    count(log, LifecycleEvent::DeliveryStarted { token: t })
}

/// How often delivery stopped for the cell under `t`.
pub open spec fn stops(log: Seq<LifecycleEvent>, t: u64) -> nat {
    count(log, LifecycleEvent::DeliveryStopped { token: t })
}

/// How often the cell under `t` was released.
pub open spec fn frees(log: Seq<LifecycleEvent>, t: u64) -> nat {
    count(log, LifecycleEvent::CellFreed { token: t })
}

/// Appending one event raises exactly that event's count by one.
pub proof fn lemma_count_push(log: Seq<LifecycleEvent>, log2: Seq<LifecycleEvent>, f: LifecycleEvent)
    requires
        log2 == log.push(f),
    ensures
        forall|e: LifecycleEvent| #[trigger] count(log2, e) == count(log, e) + if e == f {
            1nat
        } else {
            0nat
        },
{
    assert(log2.drop_last() =~= log);
}

/// Appending one event raises exactly the matching per-token counter by one.
pub proof fn lemma_counts_push(
    log: Seq<LifecycleEvent>,
    log2: Seq<LifecycleEvent>,
    f: LifecycleEvent,
)
    requires
        log2 == log.push(f),
    ensures
        forall|t: u64| #[trigger] allocs(log2, t) == allocs(log, t) + if f
            == (LifecycleEvent::CellAllocated { token: t }) {
            1nat
        } else {
            0nat
        },
        forall|t: u64| #[trigger] starts(log2, t) == starts(log, t) + if f
            == (LifecycleEvent::DeliveryStarted { token: t }) {
            1nat
        } else {
            0nat
        },
        forall|t: u64| #[trigger] stops(log2, t) == stops(log, t) + if f
            == (LifecycleEvent::DeliveryStopped { token: t }) {
            1nat
        } else {
            0nat
        },
        forall|t: u64| #[trigger] frees(log2, t) == frees(log, t) + if f
            == (LifecycleEvent::CellFreed { token: t }) {
            1nat
        } else {
            0nat
        },
{
    lemma_count_push(log, log2, f);
}

/// The model of an open device session.
///
/// Scripted replies take the place of the physical device: a test or a
/// driver sets what the next negotiation, start or still-capture request
/// reports, and the lifecycle code is verified against every script.
pub struct DeviceSession {
    delivery_token: Option<u64>,
    next_token: u64,
    events: Vec<LifecycleEvent>,
    reply_start: UvcError,
    reply_still: UvcError,
    reply_trigger: UvcError,
}

impl DeviceSession {
    /// The token whose cell is currently registered for delivery, if any.
    pub closed spec fn delivery(&self) -> Option<u64> {
        self.delivery_token
    }

    /// The next token the session will hand out; every token in the log is
    /// smaller.
    pub closed spec fn fresh_token(&self) -> u64 {
        self.next_token
    }

    /// The boundary log, oldest event first.
    pub closed spec fn log(&self) -> Seq<LifecycleEvent> {
        self.events@
    }

    /// The scripted status of the next start-delivery request.
    pub closed spec fn start_reply(&self) -> UvcError {
        self.reply_start
    }

    /// The scripted status of the next still-capture negotiation.
    pub closed spec fn still_reply(&self) -> UvcError {
        self.reply_still
    }

    /// The scripted status of the next still-capture trigger.
    pub closed spec fn trigger_reply(&self) -> UvcError {
        self.reply_trigger
    }

    /// What always holds of a session's boundary log:
    /// tokens in the log are older than the next fresh token; a cell is
    /// allocated at most once and released at most once, and only after an
    /// allocation; delivery starts only for allocated cells and stops only
    /// after starting; a cell whose delivery is running is never released;
    /// and the registered token is exactly the one whose delivery has begun
    /// and not yet stopped.
    pub open spec fn inv(&self) -> bool {
        &&& forall|t: u64| t >= self.fresh_token() ==> #[trigger] allocs(self.log(), t) == 0
        &&& forall|t: u64| #[trigger] allocs(self.log(), t) <= 1
        &&& forall|t: u64| #[trigger] frees(self.log(), t) <= allocs(self.log(), t)
        &&& forall|t: u64| #[trigger] starts(self.log(), t) <= allocs(self.log(), t)
        &&& forall|t: u64| #[trigger] stops(self.log(), t) <= starts(self.log(), t)
        &&& forall|t: u64|
            starts(self.log(), t) > stops(self.log(), t) ==> #[trigger] frees(self.log(), t) == 0
        &&& forall|t: u64| #[trigger] starts(self.log(), t) == stops(self.log(), t) + if self.delivery()
            == Some(t) {
            1nat
        } else {
            0nat
        }
        &&& match self.delivery() {
            Some(t) => allocs(self.log(), t) == 1 && frees(self.log(), t) == 0,
            None => true,
        }
    }

    /// Opens a fresh session model: nothing registered, an empty log, and
    /// every scripted reply set to success.
    pub fn new() -> (s: DeviceSession)
        ensures
            s.inv(),
            s.delivery() is None,
            s.fresh_token() == 0,
            s.log() == Seq::<LifecycleEvent>::empty(),
            s.start_reply() == UvcError::Success,
            s.still_reply() == UvcError::Success,
            s.trigger_reply() == UvcError::Success,
    {
        DeviceSession {
            delivery_token: None,
            next_token: 0,
            events: Vec::new(),
            reply_start: UvcError::Success,
            reply_still: UvcError::Success,
            reply_trigger: UvcError::Success,
        }
    }

    /// Scripts the status the next start-delivery request will report.
    pub fn set_start_reply(&mut self, r: UvcError)
        ensures
            final(self).start_reply() == r,
            final(self).still_reply() == old(self).still_reply(),
            final(self).trigger_reply() == old(self).trigger_reply(),
            final(self).delivery() == old(self).delivery(),
            final(self).fresh_token() == old(self).fresh_token(),
            final(self).log() == old(self).log(),
    {
        self.reply_start = r;
    }

    /// Scripts the status the next still-capture negotiation will report.
    pub fn set_still_reply(&mut self, r: UvcError)
        ensures
            final(self).still_reply() == r,
            final(self).start_reply() == old(self).start_reply(),
            final(self).trigger_reply() == old(self).trigger_reply(),
            final(self).delivery() == old(self).delivery(),
            final(self).fresh_token() == old(self).fresh_token(),
            final(self).log() == old(self).log(),
    {
        self.reply_still = r;
    }

    /// Scripts the status the next still-capture trigger will report.
    pub fn set_trigger_reply(&mut self, r: UvcError)
        ensures
            final(self).trigger_reply() == r,
            final(self).start_reply() == old(self).start_reply(),
            final(self).still_reply() == old(self).still_reply(),
            final(self).delivery() == old(self).delivery(),
            final(self).fresh_token() == old(self).fresh_token(),
            final(self).log() == old(self).log(),
    {
        self.reply_trigger = r;
    }

    /// The boundary log so far, oldest event first.
    pub fn events(&self) -> (log: &Vec<LifecycleEvent>)
        ensures
            log@ == self.log(),
    {
        &self.events
    }

    /// Whether a cell is currently registered for delivery.
    pub fn delivery_active(&self) -> (b: bool)
        ensures
            b == (self.delivery() is Some),
    {
        match self.delivery_token {
            Some(_) => true,
            None => false,
        }
    }

    /// Records the allocation of a new callback cell and hands out its
    /// fresh token.
    pub(crate) fn register_cell(&mut self) -> (t: u64)
        requires
            old(self).inv(),
            old(self).fresh_token() < u64::MAX,
        ensures
            final(self).inv(),
            t == old(self).fresh_token(),
            final(self).fresh_token() == t + 1,
            final(self).delivery() == old(self).delivery(),
            final(self).log() == old(self).log().push(LifecycleEvent::CellAllocated { token: t }),
            final(self).start_reply() == old(self).start_reply(),
            final(self).still_reply() == old(self).still_reply(),
            final(self).trigger_reply() == old(self).trigger_reply(),
            allocs(final(self).log(), t) == 1,
            frees(final(self).log(), t) == 0,
            starts(final(self).log(), t) == 0,
            stops(final(self).log(), t) == 0,
    {
        let t = self.next_token;
        self.next_token = self.next_token + 1;
        self.events.push(LifecycleEvent::CellAllocated { token: t });
        proof {
            lemma_counts_push(
                old(self).log(),
                self.log(),
                LifecycleEvent::CellAllocated { token: t },
            );
        }
        t
    }

    /// Asks the session to begin asynchronous delivery for the cell under
    /// `token`; reports the scripted status, and registers the token only
    /// on success.
    pub(crate) fn begin_delivery(&mut self, token: u64) -> (r: UvcError)
        requires
            old(self).inv(),
            old(self).delivery() is None,
            allocs(old(self).log(), token) == 1,
            frees(old(self).log(), token) == 0,
            starts(old(self).log(), token) == 0,
        ensures
            final(self).inv(),
            r == old(self).start_reply(),
            final(self).fresh_token() == old(self).fresh_token(),
            final(self).start_reply() == old(self).start_reply(),
            final(self).still_reply() == old(self).still_reply(),
            final(self).trigger_reply() == old(self).trigger_reply(),
            r == UvcError::Success ==> final(self).delivery() == Some(token) && final(self).log()
                == old(self).log().push(LifecycleEvent::DeliveryStarted { token }),
            r != UvcError::Success ==> *final(self) == *old(self),
    {
        if self.reply_start == UvcError::Success {
            self.events.push(LifecycleEvent::DeliveryStarted { token });
            self.delivery_token = Some(token);
            proof {
                lemma_counts_push(
                    old(self).log(),
                    self.log(),
                    LifecycleEvent::DeliveryStarted { token },
                );
            }
            UvcError::Success
        } else {
            self.reply_start
        }
    }

    /// Stops asynchronous delivery for the registered cell. When this
    /// returns, the session makes no further deliveries for it: only then
    /// may the cell be released.
    pub(crate) fn stop_delivery(&mut self)
        requires
            old(self).inv(),
            old(self).delivery() is Some,
        ensures
            final(self).inv(),
            final(self).delivery() is None,
            final(self).fresh_token() == old(self).fresh_token(),
            final(self).start_reply() == old(self).start_reply(),
            final(self).still_reply() == old(self).still_reply(),
            final(self).trigger_reply() == old(self).trigger_reply(),
            final(self).log() == old(self).log().push(
                LifecycleEvent::DeliveryStopped { token: old(self).delivery()->Some_0 },
            ),
    {
        let t = match self.delivery_token {
            Some(t) => t,
            None => 0,  // unreachable under the precondition
        };
        self.events.push(LifecycleEvent::DeliveryStopped { token: t });
        self.delivery_token = None;
        proof {
            lemma_counts_push(old(self).log(), self.log(), LifecycleEvent::DeliveryStopped { token: t });
        }
    }

    /// Records the release of the cell under `token`. The caller must have
    /// stopped its delivery first; a running delivery can never reach a
    /// released cell.
    pub(crate) fn free_cell(&mut self, token: u64)
        requires
            old(self).inv(),
            allocs(old(self).log(), token) == 1,
            frees(old(self).log(), token) == 0,
            starts(old(self).log(), token) == stops(old(self).log(), token),
            old(self).delivery() != Some(token),
        ensures
            final(self).inv(),
            final(self).delivery() == old(self).delivery(),
            final(self).fresh_token() == old(self).fresh_token(),
            final(self).start_reply() == old(self).start_reply(),
            final(self).still_reply() == old(self).still_reply(),
            final(self).trigger_reply() == old(self).trigger_reply(),
            final(self).log() == old(self).log().push(LifecycleEvent::CellFreed { token }),
            frees(final(self).log(), token) == 1,
    {
        self.events.push(LifecycleEvent::CellFreed { token });
        proof {
            lemma_counts_push(old(self).log(), self.log(), LifecycleEvent::CellFreed { token });
        }
    }

    /// Asks the session for a still-capture configuration for the given
    /// dimensions. The device can match no degenerate size, so a zero
    /// width or height always reports `InvalidParam`; otherwise the
    /// scripted status decides.
    pub(crate) fn negotiate_still(&self, width: u32, height: u32) -> (r: UvcError)
        ensures
            r == if width == 0 || height == 0 {
                UvcError::InvalidParam
            } else {
                self.still_reply()
            },
    {
        if width == 0 || height == 0 {
            UvcError::InvalidParam
        } else {
            self.reply_still
        }
    }

    /// Asks the session to capture a still image; reports the scripted
    /// status.
    pub(crate) fn trigger(&self) -> (r: UvcError)
        ensures
            r == self.trigger_reply(),
    {
        self.reply_trigger
    }
}

/// A cell whose delivery is running is never released: as long as delivery
/// has begun and not stopped for a token, the log holds no release of it.
/// This is what makes the stop-then-free teardown order safe.
pub proof fn lemma_running_delivery_never_freed(s: DeviceSession, t: u64)
    requires
        s.inv(),
        starts(s.log(), t) > stops(s.log(), t),
    ensures
        frees(s.log(), t) == 0,
{
}

/// A cell is released at most once, whatever the session went through: its
/// log never holds two releases of one token.
pub proof fn lemma_cell_freed_at_most_once(s: DeviceSession, t: u64)
    requires
        s.inv(),
    ensures
        frees(s.log(), t) <= 1,
{
}

} // verus!
