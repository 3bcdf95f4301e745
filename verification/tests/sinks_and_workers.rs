//! The sinks' status queries, the forwarding step of the worker loop, the
//! cancellation token, the placeholder-mode set, and the shared-handle
//! conversion.

use streamctl::config::parse_paused_source;
use streamctl::errors::{StreamError, WorkerError};
use streamctl::ids::StreamId;
use streamctl::media::{FeedFault, Frame};
use streamctl::sink::{InputMode, Outputs, PausedSources, SharedOutputs};
use streamctl::stream_map::StreamMap;
use streamctl::streaming::Streaming;
use streamctl::token::AbortHandle;
use streamctl::worker::forward_batch;

fn sink(connected: bool, has_iframe: bool) -> Outputs {
    Outputs {
        paused_source: Some(PausedSources::NoSource),
        input_source: InputMode::Paused,
        connected,
        has_iframe,
        accepting: true,
        received: Vec::new(),
    }
}

fn controller_with(main: Outputs, sub: Outputs) -> Streaming {
    let mut m: StreamMap<Outputs> = StreamMap::empty();
    m.insert(StreamId::Main, main);
    m.insert(StreamId::Sub, sub);
    let mut s = Streaming::new();
    assert!(s.insert_outputs(m).is_ok());
    s
}

#[test]
fn can_pause_requires_every_sink_keyframe() {
    assert!(controller_with(sink(false, true), sink(false, true)).can_pause());
    assert!(!controller_with(sink(false, true), sink(false, false)).can_pause());
    assert!(!controller_with(sink(false, false), sink(false, true)).can_pause());
    assert!(!controller_with(sink(false, false), sink(false, false)).can_pause());
    // With no sinks there is nothing that lacks a keyframe.
    assert!(Streaming::new().can_pause());
}

#[test]
fn client_connected_is_the_or_of_the_sinks() {
    assert!(!controller_with(sink(false, false), sink(false, false)).client_connected());
    assert!(controller_with(sink(true, false), sink(false, false)).client_connected());
    assert!(controller_with(sink(false, false), sink(true, false)).client_connected());
    assert!(controller_with(sink(true, false), sink(true, false)).client_connected());
    assert!(!Streaming::new().client_connected());
}

#[test]
fn forward_batch_keeps_fetch_order() {
    let mut out = Outputs::new();
    let f1 = Frame { tag: 1, keyframe: true };
    let f2 = Frame { tag: 2, keyframe: false };
    let f3 = Frame { tag: 3, keyframe: false };
    let r = forward_batch(&mut out, vec![Ok(f1), Ok(f2), Ok(f3)]);
    assert!(r.is_ok());
    assert_eq!(out.received, vec![f1, f2, f3]);
    assert!(out.has_iframe);
}

#[test]
fn forward_batch_stops_at_the_first_feed_fault() {
    let mut out = Outputs::new();
    let f1 = Frame { tag: 1, keyframe: false };
    let f3 = Frame { tag: 3, keyframe: false };
    let r = forward_batch(&mut out, vec![Ok(f1), Err(FeedFault { code: 4 }), Ok(f3)]);
    assert_eq!(r, Err(WorkerError::Feed(FeedFault { code: 4 })));
    // Only the units before the fault were forwarded, in order.
    assert_eq!(out.received, vec![f1]);
    assert!(!out.has_iframe);
}

#[test]
fn forward_batch_stops_when_the_sink_rejects() {
    let mut out = Outputs::new();
    out.accepting = false;
    let f1 = Frame { tag: 1, keyframe: true };
    let r = forward_batch(&mut out, vec![Ok(f1)]);
    assert_eq!(r, Err(WorkerError::Rejected));
    assert!(out.received.is_empty());
    assert!(!out.has_iframe);
}

#[test]
fn stream_recv_buffers_a_keyframe() {
    let mut out = Outputs::new();
    assert!(!out.has_last_iframe());
    assert!(out.stream_recv(Frame { tag: 1, keyframe: false }).is_ok());
    assert!(!out.has_last_iframe());
    assert!(out.stream_recv(Frame { tag: 2, keyframe: true }).is_ok());
    assert!(out.has_last_iframe());
}

#[test]
fn abort_and_reset_are_idempotent() {
    let mut t = AbortHandle::new();
    assert!(t.is_live());
    t.abort();
    assert!(!t.is_live());
    t.abort();
    assert!(!t.is_live());
    t.reset();
    assert!(t.is_live());
    t.reset();
    assert!(t.is_live());
}

#[test]
fn paused_source_set_is_closed() {
    assert_eq!(parse_paused_source(&"test".to_string()), Ok(PausedSources::TestSrc));
    assert_eq!(parse_paused_source(&"still".to_string()), Ok(PausedSources::Still));
    assert_eq!(parse_paused_source(&"black".to_string()), Ok(PausedSources::Black));
    assert_eq!(parse_paused_source(&"none".to_string()), Ok(PausedSources::NoSource));
    assert_eq!(
        parse_paused_source(&"blue".to_string()),
        Err(StreamError::UnknownPauseMode)
    );
}

#[test]
fn shared_handle_refuses_extraction_while_held() {
    let mut so = SharedOutputs::wrap(Outputs::new());
    so.share();
    match so.into_inner() {
        Err(StreamError::OutputHeld) => {},
        _ => panic!("a held handle must refuse extraction"),
    }
    let mut so = SharedOutputs::wrap(Outputs::new());
    so.share();
    so.release();
    assert!(so.into_inner().is_ok());
}

#[test]
fn forward_batch_of_nothing_is_ok() {
    let mut out = Outputs::new();
    assert!(forward_batch(&mut out, Vec::new()).is_ok());
    assert!(out.received.is_empty());
}

#[test]
fn forward_batch_leads_with_a_feed_fault_even_when_rejecting() {
    let mut out = Outputs::new();
    out.accepting = false;
    let r = forward_batch(&mut out, vec![Err(FeedFault { code: 9 })]);
    assert_eq!(r, Err(WorkerError::Feed(FeedFault { code: 9 })));
    assert!(out.received.is_empty());
}

#[test]
fn sink_starts_paused_and_switches_to_live() {
    let mut out = Outputs::new();
    assert_eq!(out.input_source, InputMode::Paused);
    out.set_input_source(InputMode::Live);
    assert_eq!(out.input_source, InputMode::Live);
    out.set_paused_source(PausedSources::Still);
    assert_eq!(out.paused_source, Some(PausedSources::Still));
}
