use lily58::layers::KeyEvent;
use lily58::render::{push_decimal, render_frame, FlushOutcome, Renderer};
use lily58::status::{ControllerEvent, StatusAggregator, StatusChannel, UiState};

fn key(pressed: bool) -> ControllerEvent {
    ControllerEvent::Key(KeyEvent { row: 2, col: 3, pressed })
}

fn st(layer: usize, key_event_count: usize) -> UiState {
    UiState { layer, key_event_count }
}

#[test]
fn layer_then_keys_then_layer_scenario() {
    let mut agg = StatusAggregator::new(3).unwrap();
    let mut chan = StatusChannel::new();
    let mut renderer = Renderer::new();
    agg.process_event(ControllerEvent::Layer(1), &mut chan);
    for _ in 0..3 {
        agg.process_event(key(true), &mut chan);
    }
    agg.process_event(ControllerEvent::Layer(0), &mut chan);
    assert_eq!(agg.state(), st(0, 3));
    let frame = renderer.tick(&mut chan).unwrap();
    assert_eq!(frame, b"0\n3".to_vec());
}

#[test]
fn key_events_count_on_both_edges() {
    let mut agg = StatusAggregator::new(3).unwrap();
    let mut chan = StatusChannel::new();
    agg.process_event(key(true), &mut chan);
    agg.process_event(key(false), &mut chan);
    assert_eq!(agg.state(), st(0, 2));
    assert_eq!(chan.take(), Some(st(0, 2)));
}

#[test]
fn other_events_publish_nothing() {
    let mut agg = StatusAggregator::new(3).unwrap();
    let mut chan = StatusChannel::new();
    agg.process_event(ControllerEvent::Other, &mut chan);
    assert_eq!(agg.state(), st(0, 0));
    assert_eq!(chan.take(), None);
}

#[test]
fn channel_keeps_only_the_latest_publication() {
    let mut chan = StatusChannel::new();
    assert_eq!(chan.take(), None);
    chan.publish(st(1, 1));
    chan.publish(st(2, 5));
    assert_eq!(chan.take(), Some(st(2, 5)));
    assert_eq!(chan.take(), None);
}

#[test]
fn tick_shows_the_last_of_several_publications() {
    let mut chan = StatusChannel::new();
    let mut renderer = Renderer::new();
    chan.publish(st(1, 0));
    assert_eq!(renderer.tick(&mut chan).unwrap(), b"1\n0".to_vec());
    chan.publish(st(2, 1));
    chan.publish(st(1, 2));
    chan.publish(st(0, 3));
    assert_eq!(renderer.tick(&mut chan).unwrap(), b"0\n3".to_vec());
}

#[test]
fn repeated_ticks_render_identical_frames() {
    let mut chan = StatusChannel::new();
    let mut renderer = Renderer::new();
    chan.publish(st(2, 41));
    let first = renderer.tick(&mut chan).unwrap();
    let second = renderer.tick(&mut chan).unwrap();
    assert_eq!(first, second);
    assert_eq!(first, b"2\n41".to_vec());
}

#[test]
fn no_frame_before_the_first_publication() {
    let mut chan = StatusChannel::new();
    let mut renderer = Renderer::new();
    assert_eq!(renderer.tick(&mut chan), None);
}

#[test]
fn frame_text_is_decimal() {
    assert_eq!(render_frame(st(0, 0)), b"0\n0".to_vec());
    assert_eq!(render_frame(st(12, 305)), b"12\n305".to_vec());
    let mut buf = b"x".to_vec();
    push_decimal(&mut buf, 1_000_007);
    assert_eq!(buf, b"x1000007".to_vec());
    let mut buf = Vec::new();
    push_decimal(&mut buf, usize::MAX);
    assert_eq!(buf, usize::MAX.to_string().into_bytes());
}

#[test]
fn transient_failure_keeps_rendering() {
    let mut chan = StatusChannel::new();
    let mut renderer = Renderer::new();
    chan.publish(st(1, 1));
    assert!(renderer.tick(&mut chan).is_some());
    renderer.record_flush(FlushOutcome::Transient);
    assert!(renderer.is_running());
    assert_eq!(renderer.tick(&mut chan).unwrap(), b"1\n1".to_vec());
    renderer.record_flush(FlushOutcome::Done);
    assert!(renderer.is_running());
}

#[test]
fn permanent_failure_stops_rendering_only() {
    let mut agg = StatusAggregator::new(3).unwrap();
    let mut chan = StatusChannel::new();
    let mut renderer = Renderer::new();
    agg.process_event(key(true), &mut chan);
    renderer.tick(&mut chan);
    renderer.record_flush(FlushOutcome::Permanent);
    assert!(!renderer.is_running());
    agg.process_event(key(false), &mut chan);
    assert_eq!(agg.state(), st(0, 2));
    assert_eq!(renderer.tick(&mut chan), None);
    assert_eq!(chan.take(), Some(st(0, 2)));
}

#[test]
fn out_of_range_layer_change_is_ignored() {
    let mut agg = StatusAggregator::new(3).unwrap();
    let mut chan = StatusChannel::new();
    agg.process_event(ControllerEvent::Layer(2), &mut chan);
    assert_eq!(chan.take(), Some(st(2, 0)));
    agg.process_event(ControllerEvent::Layer(3), &mut chan);
    agg.process_event(ControllerEvent::Layer(7), &mut chan);
    assert_eq!(agg.state(), st(2, 0));
    assert_eq!(chan.take(), None);
}

#[test]
fn aggregator_needs_a_layer() {
    assert!(StatusAggregator::new(0).is_none());
    assert_eq!(StatusAggregator::new(1).unwrap().layer_count(), 1);
    let mut agg = StatusAggregator::new(1).unwrap();
    let mut chan = StatusChannel::new();
    agg.process_event(ControllerEvent::Layer(1), &mut chan);
    assert_eq!(agg.state(), st(0, 0));
    assert_eq!(chan.take(), None);
}
