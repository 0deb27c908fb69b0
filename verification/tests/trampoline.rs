use uvc_stream::cell::{trampoline, CallbackCell, TrampolineOutcome};
use uvc_stream::frame::{FrameDescriptor, FrameFormat, FrameView};
use uvc_stream::session::DeviceSession;
use uvc_stream::stream::{StreamConfig, StreamHandle};

fn record_meta(v: &FrameView, s: &Vec<u32>) -> Vec<u32> {
    let mut next = s.clone();
    next.push(v.width());
    next.push(v.height());
    next.push(v.sequence());
    next
}

fn add_width(v: &FrameView, s: &u32) -> u32 {
    *s + v.width()
}

fn frame(width: u32, height: u32, sequence: u32) -> FrameDescriptor {
    FrameDescriptor {
        width,
        height,
        format: FrameFormat::Mjpeg,
        sequence,
        data: vec![9, 8, 7],
    }
}

#[test]
fn delivery_shows_descriptor_metadata_and_state_persists() {
    let mut session = DeviceSession::new();
    let handle = StreamHandle::new(StreamConfig {
        width: 320,
        height: 240,
        format: FrameFormat::Mjpeg,
        fps: 15,
    });
    let mut stream = handle
        .start_stream(&mut session, record_meta, Vec::new())
        .unwrap_or_else(|_| panic!("start was scripted to succeed"));

    let first = frame(320, 240, 0);
    let second = frame(321, 241, 1);
    assert_eq!(stream.deliver(&session, Some(&first)), TrampolineOutcome::Delivered);
    assert_eq!(stream.deliver(&session, Some(&second)), TrampolineOutcome::Delivered);

    // The second invocation appended to what the first one wrote: the user
    // state carried over between deliveries of one stream.
    let state = stream.stop(&mut session);
    assert_eq!(state, vec![320, 240, 0, 321, 241, 1]);
}

#[test]
fn null_frame_is_fatal_and_never_reaches_the_callback() {
    let mut token = Some(CallbackCell::new(add_width, 5u32));
    let outcome = trampoline(None, &mut token);
    assert_eq!(outcome, TrampolineOutcome::FatalNullFrame);
    assert!(outcome.fatal());
    // The callback never ran: the state is exactly what the cell started with.
    assert_eq!(token.map(CallbackCell::into_state), Some(5u32));
}

#[test]
fn null_token_is_fatal() {
    let d = frame(320, 240, 0);
    let mut token: Option<CallbackCell<fn(&FrameView, &u32) -> u32, u32>> = None;
    let outcome = trampoline(Some(&d), &mut token);
    assert_eq!(outcome, TrampolineOutcome::FatalNullToken);
    assert!(outcome.fatal());
}

#[test]
fn trampoline_with_valid_inputs_delivers() {
    let d = frame(320, 240, 3);
    let mut token = Some(CallbackCell::new(add_width, 2u32));
    let outcome = trampoline(Some(&d), &mut token);
    assert_eq!(outcome, TrampolineOutcome::Delivered);
    assert!(!outcome.fatal());
    assert_eq!(token.map(CallbackCell::into_state), Some(322u32));
}

#[test]
fn null_frame_delivery_on_stream_keeps_state() {
    let mut session = DeviceSession::new();
    let handle = StreamHandle::new(StreamConfig {
        width: 320,
        height: 240,
        format: FrameFormat::Mjpeg,
        fps: 15,
    });
    let mut stream = handle
        .start_stream(&mut session, add_width, 11u32)
        .unwrap_or_else(|_| panic!("start was scripted to succeed"));
    assert_eq!(stream.deliver(&session, None), TrampolineOutcome::FatalNullFrame);
    assert_eq!(stream.stop(&mut session), 11u32);
}

#[test]
fn frame_view_reads_descriptor_without_owning_it() {
    let d = FrameDescriptor {
        width: 1920,
        height: 1080,
        format: FrameFormat::Rgb,
        sequence: 42,
        data: vec![0, 1, 2, 3, 4, 5],
    };
    let view = FrameView::new(&d);
    assert_eq!(view.width(), 1920);
    assert_eq!(view.height(), 1080);
    assert_eq!(view.format(), FrameFormat::Rgb);
    assert_eq!(view.sequence(), 42);
    assert_eq!(view.data().as_slice(), &[0, 1, 2, 3, 4, 5]);
    // The view borrowed the descriptor; it is still fully usable here.
    assert_eq!(d.width, 1920);
    assert_eq!(d.data.len(), 6);
}
