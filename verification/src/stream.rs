//! Stream handles and the running-stream resource.
//!
//! A [`StreamHandle`] carries a negotiated configuration and is consumed
//! either to negotiate still capture on top of it or to start streaming.
//! Starting allocates the one [`CallbackCell`] of the stream, registers it
//! with the session and, on success, yields an [`ActiveStream`] that owns
//! the obligation to tear the stream down exactly once: stop delivery
//! first, release the cell second. Both consuming operations make any use
//! after teardown impossible at the type level.

use vstd::prelude::*;

use crate::cell::{callback_total, CallbackCell, TrampolineOutcome};
use crate::error::UvcError;
use crate::frame::{view_of, FrameDescriptor, FrameFormat, FrameView};
use crate::session::{allocs, frees, DeviceSession, LifecycleEvent};

verus! {

/// A negotiated streaming configuration: resolution, pixel layout and rate.
#[derive(Clone, Copy, Debug, PartialEq, Eq, Structural)]
pub struct StreamConfig {
    /// Frame width in pixels.
    pub width: u32,
    /// Frame height in pixels.
    pub height: u32,
    /// Pixel layout of delivered frames.
    pub format: FrameFormat,
    /// Frames per second.
    pub fps: u32,
}

/// A negotiated still-capture configuration.
#[derive(Clone, Copy, Debug, PartialEq, Eq, Structural)]
pub struct StillConfig {
    /// Still image width in pixels.
    pub width: u32,
    /// Still image height in pixels.
    pub height: u32,
}

/// A configured, not yet started stream bound to a device session.
///
/// The handle is consumed by still-capture negotiation and by starting the
/// stream; a failed start consumes it too, and negotiation must be redone
/// before another attempt.
#[derive(Clone, Copy, Debug, PartialEq, Eq, Structural)]
pub struct StreamHandle {
    /// The negotiated streaming configuration.
    pub config: StreamConfig,
    /// The negotiated still-capture configuration, if any.
    pub still: Option<StillConfig>,
}

impl StreamHandle {
    /// Wraps a configuration the device session negotiated into a handle
    /// with no still-capture configuration yet.
    pub fn new(config: StreamConfig) -> (h: StreamHandle)
        ensures
            h.config == config,
            h.still is None,
    {
        StreamHandle { config, still: None }
    }

    /// Asks the session for a still-capture configuration compatible with
    /// this handle's streaming configuration.
    ///
    /// On success the new handle carries both the original streaming
    /// configuration and the still configuration; on failure the
    /// device-reported status comes back verbatim, and the handle is gone
    /// either way. Degenerate dimensions (zero width or height) always
    /// fail.
    pub fn get_still_ctrl_format_size(self, session: &DeviceSession, width: u32, height: u32) -> (r:
        Result<StreamHandle, UvcError>)
        ensures
            r is Ok <==> width > 0 && height > 0 && session.still_reply() == UvcError::Success,
            r is Ok ==> r == Ok::<StreamHandle, UvcError>(
                StreamHandle { config: self.config, still: Some(StillConfig { width, height }) },
            ),
            r is Err ==> r == Err::<StreamHandle, UvcError>(
                if width == 0 || height == 0 {
                    UvcError::InvalidParam
                } else {
                    session.still_reply()
                },
            ) && !(r->Err_0).is_success(),
    {
        let status = session.negotiate_still(width, height);
        if status == UvcError::Success {
            Ok(StreamHandle { config: self.config, still: Some(StillConfig { width, height }) })
        } else {
            Err(status)
        }
    }

    /// Starts the stream: allocates the callback cell for `cb` and
    /// `user_data`, registers it with the session and asks for asynchronous
    /// delivery to begin.
    ///
    /// The call returns as soon as registration succeeds or fails; it never
    /// waits for frames. On success the returned [`ActiveStream`] owns the
    /// cell. On failure the cell allocated for this attempt is released
    /// before returning — exactly once, with no delivery registered — and
    /// the device-reported status comes back verbatim.
    pub fn start_stream<F, U>(self, session: &mut DeviceSession, cb: F, user_data: U) -> (r: Result<
        ActiveStream<F, U>,
        UvcError,
    >) where F: Fn(&FrameView, &U) -> U + Send + Sync + 'static, U: Send + Sync + 'static
        requires
            old(session).inv(),
            old(session).delivery() is None,
            old(session).fresh_token() < u64::MAX,
            callback_total::<F, U>(cb),
        ensures
            final(session).inv(),
            final(session).fresh_token() == old(session).fresh_token() + 1,
            final(session).start_reply() == old(session).start_reply(),
            final(session).still_reply() == old(session).still_reply(),
            final(session).trigger_reply() == old(session).trigger_reply(),
            r is Ok <==> old(session).start_reply() == UvcError::Success,
            r matches Ok(stream) ==> stream.wf(*final(session))
                && stream.token() == old(session).fresh_token()
                && stream.callback() == cb
                && stream.state() == user_data
                && stream.still_config() == self.still
                && final(session).log() == old(session).log()
                    .push(LifecycleEvent::CellAllocated { token: stream.token() })
                    .push(LifecycleEvent::DeliveryStarted { token: stream.token() }),
            r matches Err(e) ==> e == old(session).start_reply()
                && !e.is_success()
                && final(session).delivery() is None
                && final(session).log() == old(session).log()
                    .push(LifecycleEvent::CellAllocated { token: old(session).fresh_token() })
                    .push(LifecycleEvent::CellFreed { token: old(session).fresh_token() })
                && frees(final(session).log(), old(session).fresh_token()) == 1,
    {
        let cell = CallbackCell::new(cb, user_data);
        let token = session.register_cell();
        let status = session.begin_delivery(token);
        if status == UvcError::Success {
            Ok(ActiveStream { cell, token, still: self.still })
        } else {
            session.free_cell(token);
            Err(status)
        }
    }
}

/// A running stream: owns the callback cell and the obligation to tear the
/// stream down exactly once.
///
/// Every operation that ends the stream consumes the value, so no code path
/// can reach a torn-down stream: teardown happens at most once, and use
/// after teardown is a type error, not a runtime check.
pub struct ActiveStream<F, U> {
    cell: CallbackCell<F, U>,
    token: u64,
    still: Option<StillConfig>,
}

impl<F, U> ActiveStream<F, U> {
    /// The token under which this stream's cell is registered.
    pub closed spec fn token(&self) -> u64 {
        self.token
    }

    /// The callback the stream's cell owns.
    pub closed spec fn callback(&self) -> F {
        self.cell.callback()
    }

    /// The user state the stream's cell owns.
    pub closed spec fn state(&self) -> U {
        self.cell.state()
    }

    /// The negotiated still-capture configuration, if any.
    pub closed spec fn still_config(&self) -> Option<StillConfig> {
        self.still
    }

    /// Whether still capture was negotiated for this stream.
    pub fn has_still(&self) -> (b: bool)
        ensures
            b == (self.still_config() is Some),
    {
        match self.still {
            Some(_) => true,
            None => false,
        }
    }
}

impl<F, U> ActiveStream<F, U> where
    F: Fn(&FrameView, &U) -> U + Send + Sync + 'static,
    U: Send + Sync + 'static,
 {
    /// What ties a running stream to its session: the session holds this
    /// stream's token registered for delivery, the cell under it was
    /// allocated exactly once and never released, and the callback accepts
    /// every input.
    pub open spec fn wf(&self, session: DeviceSession) -> bool {
        &&& session.delivery() == Some(self.token())
        &&& allocs(session.log(), self.token()) == 1
        &&& frees(session.log(), self.token()) == 0
        &&& callback_total::<F, U>(self.callback())
    }

    /// One delivery from the session's background mechanism, pushed into
    /// this stream's cell: the callback observes a view of the delivered
    /// frame and the user state moves to what it returns. An absent frame
    /// is a fatal contract violation and never reaches the callback.
    ///
    /// Delivery presupposes a session that still has this stream
    /// registered: once teardown has stopped delivery, no invocation can
    /// occur.
    pub fn deliver(&mut self, session: &DeviceSession, frame: Option<&FrameDescriptor>) -> (o:
        TrampolineOutcome)
        requires
            old(self).wf(*session),
        ensures
            final(self).wf(*session),
            final(self).token() == old(self).token(),
            final(self).callback() == old(self).callback(),
            final(self).still_config() == old(self).still_config(),
            frame is None ==> o == TrampolineOutcome::FatalNullFrame
                && final(self).state() == old(self).state(),
            frame matches Some(d) ==> o == TrampolineOutcome::Delivered && call_ensures(
                old(self).callback(),
                (&view_of(d), &old(self).state()),
                final(self).state(),
            ),
    {
        match frame {
            None => TrampolineOutcome::FatalNullFrame,
            Some(d) => {
                let view = FrameView::new(d);
                self.cell.invoke(&view);
                TrampolineOutcome::Delivered
            },
        }
    }

    /// Asks the session to capture a still image with the negotiated still
    /// configuration. Valid only on a stream whose handle negotiated still
    /// capture; reports the device status verbatim, with no retry.
    pub fn trigger_still(&self, session: &DeviceSession) -> (r: Result<u8, UvcError>)
        requires
            self.still_config() is Some,
        ensures
            r is Ok <==> session.trigger_reply() == UvcError::Success,
            r is Ok ==> r == Ok::<u8, UvcError>(0u8),
            r is Err ==> r == Err::<u8, UvcError>(session.trigger_reply()) && !(
            r->Err_0).is_success(),
    {
        let status = session.trigger();
        if status == UvcError::Success {
            Ok(0)
        } else {
            Err(status)
        }
    }

    /// Tears the stream down and hands the user state back: first delivery
    /// is stopped — after which the session makes no further deliveries for
    /// this cell — and only then is the cell released, exactly once.
    /// Consuming `self` makes a second teardown, or any later use of the
    /// stream, a type error.
    pub fn stop(self, session: &mut DeviceSession) -> (u: U)
        requires
            old(session).inv(),
            self.wf(*old(session)),
        ensures
            final(session).inv(),
            u == self.state(),
            final(session).delivery() is None,
            final(session).fresh_token() == old(session).fresh_token(),
            final(session).start_reply() == old(session).start_reply(),
            final(session).still_reply() == old(session).still_reply(),
            final(session).trigger_reply() == old(session).trigger_reply(),
            final(session).log() == old(session).log().push(
                LifecycleEvent::DeliveryStopped { token: self.token() },
            ).push(LifecycleEvent::CellFreed { token: self.token() }),
            frees(final(session).log(), self.token()) == 1,
    {
        session.stop_delivery();
        proof {
            crate::session::lemma_counts_push(
                old(session).log(),
                session.log(),
                LifecycleEvent::DeliveryStopped { token: self.token() },
            );
        }
        session.free_cell(self.token);
        self.cell.into_state()
    }
}

} // verus!
