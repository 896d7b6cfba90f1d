use waveview::{Config, FrameBuffer, PlaybackEngine, SampleSource, SharedFrameBuffer, Window};

fn buffer_contents(buf: &FrameBuffer) -> Vec<i32> {
    let mut out = Vec::new();
    let mut i = 0;
    while i < buf.len() {
        out.push(buf.get(i));
        i += 1;
    }
    out
}

fn window_contents(w: &Window) -> Vec<i32> {
    let mut out = Vec::new();
    let mut i = 0;
    while i < w.len() {
        out.push(w.get(i));
        i += 1;
    }
    out
}

#[test]
fn write_exchange_is_a_pure_swap() {
    let mut buf = FrameBuffer::new(3);
    let mut w = Window::from_samples(vec![5, -7, 9]);
    buf.write_exchange(&mut w);
    assert_eq!(buffer_contents(&buf), vec![5, -7, 9]);
    assert_eq!(window_contents(&w), vec![0, 0, 0]);

    let mut w2 = Window::from_samples(vec![1, 2, 3]);
    buf.write_exchange(&mut w2);
    assert_eq!(buffer_contents(&buf), vec![1, 2, 3]);
    assert_eq!(window_contents(&w2), vec![5, -7, 9]);
}

#[test]
fn read_without_write_yields_zero_window() {
    let mut buf = FrameBuffer::new(2);
    let mut published = Window::from_samples(vec![4, 5]);
    buf.write_exchange(&mut published);

    let first = buf.consume();
    assert_eq!(window_contents(&first), vec![4, 5]);
    let second = buf.consume();
    assert_eq!(window_contents(&second), vec![0, 0]);
}

#[test]
fn two_channel_block_publishes_the_pulled_samples_in_order() {
    let cfg = Config::standard();
    let n = cfg.data_size();
    assert_eq!(n, 735);

    let mut decoded: Vec<i32> = Vec::new();
    for i in 0..2 * n {
        decoded.push(if i % 2 == 0 { 32768 } else { -32768 });
    }
    let mut source = SampleSource::new(decoded);

    let mut engine = PlaybackEngine::new(n);
    let mut buf = FrameBuffer::new(n);
    let block = source.pull_block(2 * n);
    engine.write_data(&block, 2, &mut buf);
    assert_eq!(source.remaining(), 0);

    let published = buf.consume();
    assert_eq!(published.len(), n);
    for i in 0..n {
        let expected = if i % 2 == 0 { 32768 } else { -32768 };
        assert_eq!(published.get(i), expected);
    }
}

#[test]
fn sample_arriving_on_a_full_window_mid_frame_is_dropped() {
    let mut engine = PlaybackEngine::new(3);
    let mut buf = FrameBuffer::new(3);
    engine.write_data(&vec![1, 2, 3, 4, 5, 6], 2, &mut buf);

    // The window fills mid-frame at the third sample; the fourth is dropped,
    // the full window is published at the frame boundary, and the last two
    // samples start refilling the staging window.
    assert_eq!(buffer_contents(&buf), vec![1, 2, 3]);
    assert_eq!(engine.cursor(), 2);
    assert_eq!(engine.staged(0), 5);
    assert_eq!(engine.staged(1), 6);
}

#[test]
fn mono_block_publishes_every_full_window() {
    let mut engine = PlaybackEngine::new(2);
    let mut buf = FrameBuffer::new(2);
    engine.write_data(&vec![10, 20, 30, 40, 50], 1, &mut buf);

    // Windows [10, 20] and [30, 40] were published in turn; the buffer holds
    // the latest, and 50 sits staged.
    assert_eq!(buffer_contents(&buf), vec![30, 40]);
    assert_eq!(engine.cursor(), 1);
    assert_eq!(engine.staged(0), 50);
}

#[test]
fn locked_buffer_exchanges_whole_windows() {
    let shared = SharedFrameBuffer::new(3);
    assert_eq!(shared.size(), 3);

    let mut candidate = Window::from_samples(vec![8, -2, 4]);
    shared.exchange(&mut candidate);
    assert_eq!(window_contents(&candidate), vec![0, 0, 0]);

    let first = shared.consume_latest();
    assert_eq!(window_contents(&first), vec![8, -2, 4]);
    let second = shared.consume_latest();
    assert_eq!(window_contents(&second), vec![0, 0, 0]);
}

#[test]
fn engine_publishes_through_the_locked_buffer() {
    let shared = SharedFrameBuffer::new(3);
    let mut engine = PlaybackEngine::new(3);
    engine.write_data_shared(&vec![1, 2, 3, 4, 5, 6], 2, &shared);

    let window = shared.consume_latest();
    assert_eq!(window_contents(&window), vec![1, 2, 3]);
    assert_eq!(engine.cursor(), 2);
    assert_eq!(engine.staged(0), 5);
    assert_eq!(engine.staged(1), 6);
}

#[test]
fn sample_source_is_a_one_shot_forward_cursor() {
    let mut source = SampleSource::new(vec![7, -3, 11, 0]);
    assert_eq!(source.len(), 4);
    assert_eq!(source.remaining(), 4);
    assert_eq!(source.next(), 7);
    assert_eq!(source.next(), -3);
    assert_eq!(source.remaining(), 2);
    assert_eq!(source.pull_block(2), vec![11, 0]);
    assert_eq!(source.remaining(), 0);
    assert_eq!(source.len(), 4);
}

#[test]
fn empty_block_changes_nothing() {
    let mut engine = PlaybackEngine::new(4);
    let mut buf = FrameBuffer::new(4);
    engine.write_data(&vec![], 2, &mut buf);
    assert_eq!(buffer_contents(&buf), vec![0, 0, 0, 0]);
    assert_eq!(engine.cursor(), 0);
}
