use ratatui::layout::Rect;
use systemctl_tui::render::{
    active_tone, centered_rect_abs, load_tone, popup_width, spinner_char, split_timestamp,
    sub_tone, Tone,
};

#[test]
fn popup_is_centred_in_the_area() {
    let rect = centered_rect_abs(50, 12, Rect::new(0, 0, 120, 40));
    assert_eq!((rect.x, rect.y, rect.width, rect.height), (35, 14, 50, 12));
}

#[test]
fn popup_is_cut_to_a_small_area() {
    let rect = centered_rect_abs(50, 12, Rect::new(3, 4, 30, 10));
    assert_eq!((rect.x, rect.y, rect.width, rect.height), (0, 0, 30, 10));
}

#[test]
fn popup_offset_rounds_down() {
    let rect = centered_rect_abs(4, 3, Rect::new(0, 0, 9, 8));
    assert_eq!((rect.x, rect.y, rect.width, rect.height), (2, 2, 4, 3));
}

#[test]
fn popup_width_is_the_name_and_its_padding() {
    assert_eq!(popup_width(13, 120), 31);
    assert_eq!(popup_width(0, 120), 18);
    assert_eq!(popup_width(102, 120), 120);
    assert_eq!(popup_width(103, 120), 120);
    assert_eq!(popup_width(13, 20), 20);
    assert_eq!(popup_width(usize::MAX, 80), 80);
    assert_eq!(popup_width(5, 0), 0);
}

#[test]
fn spinner_frames_repeat() {
    let frames: Vec<char> = (0u8..8).map(spinner_char).collect();
    assert_eq!(frames, vec!['⣷', '⣯', '⣟', '⡿', '⢿', '⣻', '⣽', '⣾']);
    assert_eq!(spinner_char(8), '⣷');
    assert_eq!(spinner_char(255), '⣾');
}

#[test]
fn timestamp_is_split_from_the_text() {
    assert_eq!(
        split_timestamp("2023-08-01T10:15:30+0200 host nginx[1]: started"),
        Some(("2023-08-01T10:15:30+0200", "host nginx[1]: started"))
    );
    assert_eq!(
        split_timestamp("2023-08-01T10:15:30+0200 "),
        Some(("2023-08-01T10:15:30+0200", ""))
    );
}

#[test]
fn lines_without_a_timestamp_stay_whole() {
    assert_eq!(split_timestamp("-- No entries --"), None);
    assert_eq!(split_timestamp("2023-08-01T10:15:30+0200"), None);
    assert_eq!(split_timestamp(""), None);
    assert_eq!(split_timestamp(" 2023-08-01T10:15:30+0200 text"), None);
    assert_eq!(split_timestamp("2023-08-01T10:15:30+02000 text"), None);
}

#[test]
fn timestamp_length_counts_bytes() {
    assert_eq!(split_timestamp("ééééééééééééééééééééé\u{e9}éé text"), None);
    assert_eq!(split_timestamp("éééééééééééé text"), Some(("éééééééééééé", "text")));
}

#[test]
fn tones_of_the_states() {
    assert_eq!(load_tone("loaded"), Tone::Good);
    assert_eq!(load_tone("not-found"), Tone::Warning);
    assert_eq!(load_tone("error"), Tone::Bad);
    assert_eq!(load_tone("masked"), Tone::Plain);
    assert_eq!(active_tone("active"), Tone::Good);
    assert_eq!(active_tone("inactive"), Tone::Bad);
    assert_eq!(active_tone("failed"), Tone::Plain);
    assert_eq!(sub_tone("running"), Tone::Good);
    assert_eq!(sub_tone("exited"), Tone::Bad);
    assert_eq!(sub_tone("dead"), Tone::Bad);
    assert_eq!(sub_tone("waiting"), Tone::Plain);
    assert_eq!(sub_tone("Running"), Tone::Plain);
}
