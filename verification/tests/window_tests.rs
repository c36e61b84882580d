use anti_window_snap::window::{
    get_parent_window, get_window_info, highlight_rects, inflate_rect, invert_frame_rects,
    is_root_window, offset_rect, rgb, set_rect, Rect, WS_CHILD,
};

fn r(left: i32, top: i32, right: i32, bottom: i32) -> Rect {
    Rect { left, top, right, bottom }
}

#[test]
fn window_info_keeps_parent_details_only_with_a_parent() {
    let info = get_window_info(
        10, "a".to_string(), "Cls".to_string(), 1, 2, r(0, 0, 5, 5), 0,
        "ignored".to_string(), "ignored".to_string(),
    );
    assert_eq!(info.hwnd, 10);
    assert_eq!(info.text, "a");
    assert_eq!(info.class_name, "Cls");
    assert_eq!((info.style, info.ex_style), (1, 2));
    assert_eq!(info.rect, r(0, 0, 5, 5));
    assert_eq!(info.parent_hwnd, 0);
    assert_eq!(info.parent_text, "");
    assert_eq!(info.parent_class_name, "");
    let info = get_window_info(
        10, "a".to_string(), "Cls".to_string(), 1, 2, r(0, 0, 5, 5), 99,
        "Parent".to_string(), "PCls".to_string(),
    );
    assert_eq!(info.parent_hwnd, 99);
    assert_eq!(info.parent_text, "Parent");
    assert_eq!(info.parent_class_name, "PCls");
}

#[test]
fn parent_window_is_zero_without_parent() {
    assert_eq!(get_parent_window(Some(0x1234)), 0x1234);
    assert_eq!(get_parent_window(None), 0);
}

#[test]
fn root_windows_have_no_parent_and_no_child_style() {
    assert!(is_root_window(false, 0x14CF_0000));
    assert!(!is_root_window(true, 0x14CF_0000));
    assert!(!is_root_window(false, WS_CHILD as isize));
    assert!(!is_root_window(false, 0x5000_0000));
    // only the low 32 bits of the style count
    assert!(is_root_window(false, 0x4000_0000_0000_0000u64 as i64 as isize));
}

#[test]
fn rgb_packs_red_low() {
    assert_eq!(rgb(255, 0, 0), 0x0000_00FF);
    assert_eq!(rgb(1, 2, 3), 0x0003_0201);
    let c = rgb(0x12, 0x34, 0x56);
    assert_eq!((c & 0xFF, (c >> 8) & 0xFF, (c >> 16) & 0xFF, c >> 24), (0x12, 0x34, 0x56, 0));
}

#[test]
fn rect_helpers() {
    assert_eq!(set_rect(1, 2, 3, 4), r(1, 2, 3, 4));
    assert_eq!(offset_rect(r(1, 2, 3, 4), 10, -2), r(11, 0, 13, 2));
    assert_eq!(inflate_rect(r(0, 0, 10, 10), 2, 3), r(-2, -3, 12, 13));
    assert_eq!(inflate_rect(r(0, 0, 10, 10), -5, -5), r(5, 5, 5, 5));
}

#[test]
fn highlight_uses_window_coordinates() {
    let (outer, inner) = highlight_rects(r(100, 50, 400, 250));
    assert_eq!(outer, r(-2, -2, 302, 202));
    assert_eq!(inner, r(3, 3, 297, 197));
}

#[test]
fn frame_strips_of_a_normal_window() {
    let strips = invert_frame_rects(r(100, 50, 400, 250), false);
    assert_eq!(strips, [r(0, 0, 300, 3), r(0, 3, 3, 200), r(3, 197, 300, 200), r(297, 3, 300, 197)]);
    let shown = invert_frame_rects(r(100, 50, 400, 250), true);
    assert_eq!(
        shown,
        [r(100, 50, 400, 53), r(100, 53, 103, 250), r(103, 247, 400, 250), r(397, 53, 400, 247)]
    );
}

#[test]
fn frame_of_a_small_window_is_one_pixel() {
    let strips = invert_frame_rects(r(0, 0, 5, 20), false);
    assert_eq!(strips, [r(0, 0, 5, 1), r(0, 1, 1, 20), r(1, 19, 5, 20), r(4, 1, 5, 19)]);
}

#[test]
fn frame_strips_cover_the_band_once() {
    for (w, h) in [(10, 8), (5, 20), (2, 2), (6, 6), (7, 3)] {
        let strips = invert_frame_rects(r(0, 0, w, h), false);
        let b = if w < 6 || h < 6 { 1 } else { 3 };
        for x in 0..w {
            for y in 0..h {
                let hits = strips
                    .iter()
                    .filter(|s| s.left <= x && x < s.right && s.top <= y && y < s.bottom)
                    .count();
                let band = x < b || y < b || x >= w - b || y >= h - b;
                assert_eq!(hits, if band { 1 } else { 0 }, "{}x{} at {},{}", w, h, x, y);
            }
        }
    }
}
