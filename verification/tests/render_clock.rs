use waveview::config::total_duration_ms;
use waveview::geometry::{bar_height, bar_rect, waveform_rects};
use waveview::timebar::{fill_width, label_position, timebar_rects};
use waveview::timefmt::{display_name, formatted_text, s_to_m_and_s};
use waveview::{Config, Rect, Window};

#[test]
fn standard_config_derivations() {
    let cfg = Config::standard();
    assert_eq!(cfg.data_size(), 735);
    assert_eq!(cfg.drawable_height(), 900 - (16 + 3 * 12 + 6));
}

#[test]
fn bar_height_is_even_bounded_and_exact() {
    assert_eq!(bar_height(32768, 100), 100);
    assert_eq!(bar_height(-32768, 100), 100);
    assert_eq!(bar_height(0, 900), 0);
    assert_eq!(bar_height(16384, 101), 50);
    assert_eq!(bar_height(-16384, 101), 50);
    assert_eq!(bar_height(32767, 2), 0);
    for v in [-32768, -16384, -1, 0, 1, 12345, 32768] {
        for h in [0, 1, 2, 99, 100, 101, 842] {
            let r = bar_height(v, h);
            assert!(r % 2 == 0);
            assert!(0 <= r && r <= h);
        }
    }
}

#[test]
fn bars_mirror_about_the_midline() {
    let below = bar_rect(3, 16384, 10, 100);
    assert_eq!(below, Rect { x: 30, y: 50, width: 10, height: 50 });

    let above = bar_rect(3, -16384, 10, 100);
    assert_eq!(above, Rect { x: 30, y: 0, width: 10, height: 50 });

    // A non-negative amplitude always starts at the midline; a negative one
    // ends there, its top edge the bar height above it.
    for v in [-32768, -20000, -1, 0, 1, 20000, 32768] {
        let r = bar_rect(0, v, 2, 842);
        if v < 0 {
            assert_eq!(r.y, 842 / 2 - r.height);
        } else {
            assert_eq!(r.y, 842 / 2);
        }
    }
}

#[test]
fn waveform_rects_cover_the_window_in_order() {
    let win = Window::from_samples(vec![0, 32768, -32768]);
    let rects = waveform_rects(&win, 31, 100);
    assert_eq!(rects.len(), 3);
    assert_eq!(rects[0], Rect { x: 0, y: 50, width: 10, height: 0 });
    assert_eq!(rects[1], Rect { x: 10, y: 50, width: 10, height: 100 });
    assert_eq!(rects[2], Rect { x: 20, y: -50, width: 10, height: 100 });
}

#[test]
fn clock_label_scenario() {
    let text = formatted_text(75, 190, "song.wav");
    assert_eq!(text, "01:15/03:10 | Playing -   song.wav");
}

#[test]
fn clock_label_name_field() {
    // A longer name is not truncated; a ten-character name gets no padding;
    // an empty name fills the field with spaces.
    assert_eq!(
        formatted_text(0, 0, "a_very_long_name.wav"),
        "00:00/00:00 | Playing - a_very_long_name.wav"
    );
    assert_eq!(formatted_text(0, 0, "abcdefghij"), "00:00/00:00 | Playing - abcdefghij");
    assert_eq!(formatted_text(0, 0, ""), "00:00/00:00 | Playing -           ");
}

#[test]
fn display_name_is_the_paths_basename() {
    assert_eq!(display_name("assets/audio/song.wav"), "song.wav");
    assert_eq!(display_name("song.wav"), "song.wav");
    assert_eq!(display_name("a/b/"), "");
    assert_eq!(display_name(""), "");
    assert_eq!(
        formatted_text(75, 190, display_name("assets/audio/song.wav").as_str()),
        "01:15/03:10 | Playing -   song.wav"
    );
}

#[test]
fn clock_label_large_times() {
    // Minutes grow past two digits rather than wrapping.
    assert_eq!(formatted_text(6000, 6125, "song.wav"), "100:00/102:05 | Playing -   song.wav");
}

#[test]
fn seconds_split_into_minutes_and_seconds() {
    assert_eq!(s_to_m_and_s(75), (1, 15));
    assert_eq!(s_to_m_and_s(190), (3, 10));
    assert_eq!(s_to_m_and_s(0), (0, 0));
    assert_eq!(s_to_m_and_s(3599), (59, 59));
}

#[test]
fn zero_total_duration_gives_empty_fill() {
    assert_eq!(fill_width(100, 50, 0), 0);
    let cfg = Config::standard();
    let (track, fill) = timebar_rects(&cfg, 12345, 0);
    assert_eq!(fill.width, 0);
    assert_eq!(track.width, 1470 - 2 * 12);
}

#[test]
fn fill_width_is_the_elapsed_share_clamped_to_the_track() {
    assert_eq!(fill_width(1446, 75_000, 190_000), 1446 * 75 / 190);
    assert_eq!(fill_width(100, 200, 100), 100);
    assert_eq!(fill_width(100, 100, 100), 100);
    assert_eq!(fill_width(100, 0, 100), 0);
}

#[test]
fn timebar_layout_matches_the_configuration() {
    let cfg = Config::standard();
    let (track, fill) = timebar_rects(&cfg, 75_000, 190_000);
    assert_eq!(track, Rect { x: 12, y: 900 - 2 * 12 - 16, width: 1446, height: 6 });
    assert_eq!(fill, Rect { x: 12, y: 860, width: 1446 * 75 / 190, height: 6 });
    assert_eq!(label_position(&cfg), (12, 900 - 12 - 16));
}

#[test]
fn total_duration_from_file_length() {
    assert_eq!(total_duration_ms(88200, 44100, 2), 1000);
    assert_eq!(total_duration_ms(0, 44100, 2), 0);
    assert_eq!(total_duration_ms(190 * 44100 * 2, 44100, 2), 190_000);
}
