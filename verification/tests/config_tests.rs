use anti_window_snap::config::parse_config_titles;
use anti_window_snap::text::chars_of;
use anti_window_snap::picker::{picker_step, PickerEvent, PickerStep};
use anti_window_snap::tip::next_tip;

fn std_titles(text: &str) -> Vec<String> {
    text.lines().filter(|l| !l.trim().is_empty()).map(|l| l.to_string()).collect()
}

#[test]
fn titles_are_the_nonblank_lines() {
    let samples = [
        "微信\nNotepad\n",
        "a\r\n  \nb\n\tc \r",
        "",
        "\n\n\n",
        " \u{3000}\u{85}\n x ",
        "last line without feed",
        "\r\n\r",
        "one\n\r\ntwo\r\n",
    ];
    for s in samples {
        assert_eq!(parse_config_titles(s), std_titles(s), "{:?}", s);
    }
}

#[test]
fn titles_keep_their_spaces() {
    assert_eq!(parse_config_titles("  Notepad  \n"), vec!["  Notepad  ".to_string()]);
    assert_eq!(parse_config_titles("a\r\n"), vec!["a".to_string()]);
    assert_eq!(parse_config_titles("a\r"), vec!["a\r".to_string()]);
}

#[test]
fn titles_read_back_from_the_editor_text() {
    let titles = vec!["微信".to_string(), " spaced ".to_string(), "x".to_string()];
    let mut text = String::new();
    for t in &titles {
        text.push_str(t);
        text.push('\n');
    }
    assert_eq!(parse_config_titles(&text), titles);
}

#[test]
fn chars_of_a_string() {
    assert_eq!(chars_of("a微b"), vec!['a', '微', 'b']);
}

#[test]
fn tip_keeps_the_last_line_and_adds_the_message() {
    let first = next_tip("https://github.com/pkptzx/AntiWindowSnap", "已经设置窗口防截屏:A");
    assert_eq!(first, "https://github.com/pkptzx/AntiWindowSnap\n已经设置窗口防截屏:A");
    let second = next_tip(&first, "已经设置窗口防截屏:B");
    assert_eq!(second, "已经设置窗口防截屏:A\n已经设置窗口防截屏:B");
    assert_eq!(next_tip("", "m"), "\nm");
    assert_eq!(next_tip("x\n", "m"), "\nm");
}

#[test]
fn picker_highlights_and_restores() {
    assert_eq!(
        picker_step(9, PickerEvent::Push),
        PickerStep { last_hwnd: 0, invert_first: None, invert_second: None, show: None }
    );
    assert_eq!(
        picker_step(0, PickerEvent::Drag { hwnd: 5 }),
        PickerStep { last_hwnd: 5, invert_first: None, invert_second: Some(5), show: Some(5) }
    );
    assert_eq!(
        picker_step(5, PickerEvent::Drag { hwnd: 5 }),
        PickerStep { last_hwnd: 5, invert_first: None, invert_second: None, show: Some(5) }
    );
    assert_eq!(
        picker_step(5, PickerEvent::Drag { hwnd: 6 }),
        PickerStep { last_hwnd: 6, invert_first: Some(5), invert_second: Some(6), show: Some(6) }
    );
    assert_eq!(
        picker_step(6, PickerEvent::Drag { hwnd: 0 }),
        PickerStep { last_hwnd: 6, invert_first: None, invert_second: None, show: None }
    );
    assert_eq!(
        picker_step(6, PickerEvent::Released),
        PickerStep { last_hwnd: 6, invert_first: Some(6), invert_second: None, show: None }
    );
}

#[test]
fn a_pick_inverts_every_frame_an_even_number_of_times() {
    let drags = [3u64, 3, 0, 4, 3, 5, 5, 0, 4];
    let mut last = 77;
    let mut inverted: Vec<u64> = Vec::new();
    let mut events = vec![PickerEvent::Push];
    events.extend(drags.iter().map(|h| PickerEvent::Drag { hwnd: *h }));
    events.push(PickerEvent::Released);
    for e in events {
        let s = picker_step(last, e);
        inverted.extend(s.invert_first);
        inverted.extend(s.invert_second);
        last = s.last_hwnd;
    }
    for w in [0u64, 3, 4, 5, 77] {
        assert_eq!(inverted.iter().filter(|h| **h == w).count() % 2, 0, "window {}", w);
    }
}
