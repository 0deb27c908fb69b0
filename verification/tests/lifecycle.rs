use uvc_stream::error::UvcError;
use uvc_stream::frame::{FrameDescriptor, FrameFormat, FrameView};
use uvc_stream::session::{DeviceSession, LifecycleEvent};
use uvc_stream::stream::{StillConfig, StreamConfig, StreamHandle};

fn make_handle() -> StreamHandle {
    StreamHandle::new(StreamConfig {
        width: 640,
        height: 480,
        format: FrameFormat::Yuyv,
        fps: 30,
    })
}

fn add_width(v: &FrameView, s: &u32) -> u32 {
    *s + v.width()
}

fn frame(width: u32, height: u32, sequence: u32) -> FrameDescriptor {
    FrameDescriptor {
        width,
        height,
        format: FrameFormat::Yuyv,
        sequence,
        data: vec![1, 2, 3, 4],
    }
}

#[test]
fn round_trip_still_capture() {
    let mut session = DeviceSession::new();
    let handle = make_handle();
    let handle = handle
        .get_still_ctrl_format_size(&session, 1280, 720)
        .expect("negotiation was scripted to succeed");
    assert_eq!(handle.still, Some(StillConfig { width: 1280, height: 720 }));
    assert_eq!(handle.config.width, 640);

    let stream = handle
        .start_stream(&mut session, add_width, 0u32)
        .unwrap_or_else(|_| panic!("start was scripted to succeed"));
    assert!(session.delivery_active());
    assert!(stream.has_still());

    let status = stream.trigger_still(&session);
    assert_eq!(status, Ok(0u8));

    let state = stream.stop(&mut session);
    assert_eq!(state, 0u32);
    assert!(!session.delivery_active());
}

#[test]
fn stop_orders_stop_before_free() {
    let mut session = DeviceSession::new();
    let stream = make_handle()
        .start_stream(&mut session, add_width, 0u32)
        .unwrap_or_else(|_| panic!("start was scripted to succeed"));
    stream.stop(&mut session);

    let events = session.events();
    assert_eq!(
        events.as_slice(),
        &[
            LifecycleEvent::CellAllocated { token: 0 },
            LifecycleEvent::DeliveryStarted { token: 0 },
            LifecycleEvent::DeliveryStopped { token: 0 },
            LifecycleEvent::CellFreed { token: 0 },
        ]
    );
    let stopped_at = events
        .iter()
        .position(|e| *e == LifecycleEvent::DeliveryStopped { token: 0 })
        .unwrap();
    let freed_at = events
        .iter()
        .position(|e| *e == LifecycleEvent::CellFreed { token: 0 })
        .unwrap();
    assert!(stopped_at < freed_at);
}

#[test]
fn failed_start_frees_cell_exactly_once() {
    let mut session = DeviceSession::new();
    session.set_start_reply(UvcError::Busy);
    let result = make_handle().start_stream(&mut session, add_width, 9u32);
    match result {
        Ok(_) => panic!("start was scripted to fail"),
        Err(e) => assert_eq!(e, UvcError::Busy),
    }
    assert!(!session.delivery_active());

    let events = session.events();
    assert_eq!(
        events.as_slice(),
        &[
            LifecycleEvent::CellAllocated { token: 0 },
            LifecycleEvent::CellFreed { token: 0 },
        ]
    );
    let freed = events
        .iter()
        .filter(|e| **e == LifecycleEvent::CellFreed { token: 0 })
        .count();
    assert_eq!(freed, 1);
    let started = events
        .iter()
        .filter(|e| **e == LifecycleEvent::DeliveryStarted { token: 0 })
        .count();
    assert_eq!(started, 0);
}

#[test]
fn degenerate_still_dimensions_fail() {
    let session = DeviceSession::new();
    assert_eq!(
        make_handle().get_still_ctrl_format_size(&session, 0, 0),
        Err(UvcError::InvalidParam)
    );
    assert_eq!(
        make_handle().get_still_ctrl_format_size(&session, 0, 480),
        Err(UvcError::InvalidParam)
    );
    assert_eq!(
        make_handle().get_still_ctrl_format_size(&session, 640, 0),
        Err(UvcError::InvalidParam)
    );
}

#[test]
fn scripted_negotiation_failure_passes_through() {
    let mut session = DeviceSession::new();
    session.set_still_reply(UvcError::NotSupported);
    assert_eq!(
        make_handle().get_still_ctrl_format_size(&session, 1280, 720),
        Err(UvcError::NotSupported)
    );
}

#[test]
fn scripted_trigger_failure_passes_through() {
    let mut session = DeviceSession::new();
    let handle = make_handle()
        .get_still_ctrl_format_size(&session, 1280, 720)
        .expect("negotiation was scripted to succeed");
    let stream = handle
        .start_stream(&mut session, add_width, 0u32)
        .unwrap_or_else(|_| panic!("start was scripted to succeed"));
    session.set_trigger_reply(UvcError::Timeout);
    assert_eq!(stream.trigger_still(&session), Err(UvcError::Timeout));
    stream.stop(&mut session);
}

#[test]
fn second_stream_gets_fresh_token() {
    let mut session = DeviceSession::new();
    let first = make_handle()
        .start_stream(&mut session, add_width, 0u32)
        .unwrap_or_else(|_| panic!("start was scripted to succeed"));
    first.stop(&mut session);
    let second = make_handle()
        .start_stream(&mut session, add_width, 0u32)
        .unwrap_or_else(|_| panic!("start was scripted to succeed"));
    let mut second = second;
    let d = frame(100, 100, 0);
    second.deliver(&session, Some(&d));
    let state = second.stop(&mut session);
    assert_eq!(state, 100);

    let events = session.events();
    assert_eq!(events.len(), 8);
    assert_eq!(events[4], LifecycleEvent::CellAllocated { token: 1 });
    assert_eq!(events[7], LifecycleEvent::CellFreed { token: 1 });
}
