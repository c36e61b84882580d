//! Windows as the picker and the capture guard see them: their details,
//! whether they are top-level, and the rectangles drawn around them.
use vstd::prelude::*;

verus! {

/// A rectangle in pixels: `left` and `top` are inside it, `right` and
/// `bottom` just outside.
#[derive(Clone, Copy, Debug, Default, PartialEq, Eq, Structural)]
pub struct Rect {
    pub left: i32,
    pub top: i32,
    pub right: i32,
    pub bottom: i32,
}

/// What the picker shows of a window.
#[derive(Debug, Default)]
pub struct WindowInfo {
    pub hwnd: u64,
    pub text: String,
    pub class_name: String,
    pub style: u32,
    pub ex_style: u32,
    pub rect: Rect,
    pub parent_hwnd: u64,
    pub parent_text: String,
    pub parent_class_name: String,
}

/// Gathers the details of a window. The parent's text and class name are kept
/// only where there is a parent (`parent_hwnd` is not zero); otherwise they are
/// empty.
pub fn get_window_info(
    hwnd: u64,
    text: String,
    class_name: String,
    style: u32,
    ex_style: u32,
    rect: Rect,
    parent_hwnd: u64,
    parent_text: String,
    parent_class_name: String,
) -> (info: WindowInfo)
    ensures
        info.hwnd == hwnd,
        info.text@ == text@,
        info.class_name@ == class_name@,
        info.style == style,
        info.ex_style == ex_style,
        info.rect == rect,
        info.parent_hwnd == parent_hwnd,
        info.parent_text@ == (if parent_hwnd != 0 {
            parent_text@
        } else {
            Seq::<char>::empty()
        }),
        info.parent_class_name@ == (if parent_hwnd != 0 {
            parent_class_name@
        } else {
            Seq::<char>::empty()
        }),
{
    WindowInfo {
        hwnd: hwnd,
        text: text,
        class_name: class_name,
        style: style,
        ex_style: ex_style,
        rect: rect,
        parent_hwnd: parent_hwnd,
        parent_text: if parent_hwnd != 0 {
            parent_text
        } else {
            String::new()
        },
        parent_class_name: if parent_hwnd != 0 {
            parent_class_name
        } else {
            String::new()
        },
    }
}

/// The parent's handle, or 0 where `GetParent` found none.
pub fn get_parent_window(parent: Option<u64>) -> (hwnd: u64)
    ensures
        hwnd == match parent {
            Some(p) => p,
            None => 0,
        },
{
    match parent {
        Some(p) => p,
        None => 0,
    }
}

/// The `WS_CHILD` window style bit.
pub const WS_CHILD: u32 = 0x4000_0000;

/// A window is a root window when it has no parent and its style, as
/// `GetWindowLongPtrW(GWL_STYLE)` returns it, lacks `WS_CHILD`.
pub open spec fn spec_is_root_window(has_parent: bool, style: isize) -> bool {
    !has_parent && (style as u32) & WS_CHILD == 0
}

/// Whether a window is a root window, from whether it has a parent and from
/// its style.
pub fn is_root_window(has_parent: bool, style: isize) -> (root: bool)
    ensures
        root == spec_is_root_window(has_parent, style),
{
    !has_parent && (style as u32) & WS_CHILD == 0
}

/// A window with a parent is never a root window; a window without one is a
/// root window exactly when bit 30 (`WS_CHILD`) of the low 32 bits of its
/// style is clear. No other style bit matters: two styles that agree on that
/// bit give the same answer.
pub proof fn lemma_root_window_by_child_bit(has_parent: bool, style: isize, other: isize)
    ensures
        has_parent ==> !spec_is_root_window(has_parent, style),
        spec_is_root_window(false, style) <==> ((style as u32) >> 30u32) & 1u32 == 0,
        ((style as u32) >> 30u32) & 1u32 == ((other as u32) >> 30u32) & 1u32
            ==> spec_is_root_window(has_parent, style) == spec_is_root_window(has_parent, other),
{
    let a: u32 = style as u32;
    let b: u32 = other as u32;
    assert((a & 0x4000_0000u32 == 0) == ((a >> 30u32) & 1u32 == 0)) by (bit_vector);
    assert((b & 0x4000_0000u32 == 0) == ((b >> 30u32) & 1u32 == 0)) by (bit_vector);
}

/// A `COLORREF`: red in the low byte, then green, then blue.
pub open spec fn spec_rgb(r: u8, g: u8, b: u8) -> u32 {
    (r as u32 + 256 * (g as u32) + 65536 * (b as u32)) as u32
}

/// The `COLORREF` of a colour.
pub fn rgb(r: u8, g: u8, b: u8) -> (color: u32)
    ensures
        color == spec_rgb(r, g, b),
{
    let color: u32 = (b as u32) << 16 | (g as u32) << 8 | r as u32;
    assert(color == r as u32 + 256 * (g as u32) + 65536 * (b as u32)) by (bit_vector)
        requires
            color == (b as u32) << 16 | (g as u32) << 8 | r as u32,
    ;
    color
}

/// The three channels of a colour can be read back from its `COLORREF`, and
/// its highest byte is zero.
pub proof fn lemma_rgb_channels(r: u8, g: u8, b: u8)
    ensures
        spec_rgb(r, g, b) & 0xFF == r,
        (spec_rgb(r, g, b) >> 8) & 0xFF == g,
        (spec_rgb(r, g, b) >> 16) & 0xFF == b,
        spec_rgb(r, g, b) >> 24 == 0,
{
    let c: u32 = spec_rgb(r, g, b);
    assert(c & 0xFF == r && (c >> 8) & 0xFF == g && (c >> 16) & 0xFF == b && c >> 24 == 0)
        by (bit_vector)
        requires
            c == r as u32 + 256 * (g as u32) + 65536 * (b as u32),
    ;
}

/// Whether the point `(x, y)` lies in the rectangle.
pub open spec fn rect_contains(r: Rect, x: int, y: int) -> bool {
    r.left <= x < r.right && r.top <= y < r.bottom
}

pub open spec fn fits_i32(v: int) -> bool {
    i32::MIN <= v <= i32::MAX
}

/// `SetRect`: a rectangle from its four coordinates.
pub fn set_rect(left: i32, top: i32, right: i32, bottom: i32) -> (r: Rect)
    ensures
        r == (Rect { left, top, right, bottom }),
{
    Rect { left, top, right, bottom }
}

/// `OffsetRect`: the rectangle moved by `dx` and `dy`.
pub fn offset_rect(r: Rect, dx: i32, dy: i32) -> (moved: Rect)
    requires
        fits_i32(r.left + dx),
        fits_i32(r.right + dx),
        fits_i32(r.top + dy),
        fits_i32(r.bottom + dy),
    ensures
        moved.left == r.left + dx,
        moved.right == r.right + dx,
        moved.top == r.top + dy,
        moved.bottom == r.bottom + dy,
{
    Rect { left: r.left + dx, top: r.top + dy, right: r.right + dx, bottom: r.bottom + dy }
}

/// `InflateRect`: the rectangle grown by `dx` on the left and on the right and
/// by `dy` at the top and at the bottom (shrunk where they are negative).
pub fn inflate_rect(r: Rect, dx: i32, dy: i32) -> (grown: Rect)
    requires
        fits_i32(r.left - dx),
        fits_i32(r.right + dx),
        fits_i32(r.top - dy),
        fits_i32(r.bottom + dy),
    ensures
        grown.left == r.left - dx,
        grown.right == r.right + dx,
        grown.top == r.top - dy,
        grown.bottom == r.bottom + dy,
{
    Rect { left: r.left - dx, top: r.top - dy, right: r.right + dx, bottom: r.bottom + dy }
}

/// The window's width and height, and the highlight's rectangles around
/// it, fit in `i32`.
pub open spec fn highlight_fits(window: Rect) -> bool {
    &&& window.left > i32::MIN
    &&& window.top > i32::MIN
    &&& i32::MIN + 3 <= window.right - window.left <= i32::MAX - 2
    &&& i32::MIN + 3 <= window.bottom - window.top <= i32::MAX - 2
}

/// Whether `highlight_rects` can compute the highlight around a window.
pub fn can_highlight(window: Rect) -> (ok: bool)
    ensures
        ok == highlight_fits(window),
{
    let width = window.right as i64 - window.left as i64;
    let height = window.bottom as i64 - window.top as i64;
    window.left > i32::MIN && window.top > i32::MIN && i32::MIN as i64 + 3 <= width && width
        <= i32::MAX as i64 - 2 && i32::MIN as i64 + 3 <= height && height <= i32::MAX as i64 - 2
}

/// The window's width and height fit in `i32`, and so do the frame's strips
/// in the window's own coordinates.
pub open spec fn invert_fits(window: Rect) -> bool {
    let width = window.right - window.left;
    let height = window.bottom - window.top;
    &&& window.left > i32::MIN
    &&& window.top > i32::MIN
    &&& fits_i32(width)
    &&& i32::MIN + 6 <= height <= i32::MAX
    &&& (height - 6 < 0 ==> width >= i32::MIN + 2)
    &&& (height - 6 >= 0 ==> width >= i32::MIN + 6)
}

/// The frame's strips also fit once moved back to screen coordinates.
pub open spec fn invert_strips_fit(window: Rect) -> bool {
    let b = frame_border(window.right - window.left, window.bottom - window.top);
    &&& window.left + b <= i32::MAX
    &&& window.top + b <= i32::MAX
    &&& window.right - b >= i32::MIN
    &&& window.bottom - b >= i32::MIN
}

/// Whether `invert_frame_rects` can compute the frame around a window.
pub fn can_invert_frame(window: Rect, show_hidden: bool) -> (ok: bool)
    ensures
        ok == (invert_fits(window) && (show_hidden ==> invert_strips_fit(window))),
{
    let width = window.right as i64 - window.left as i64;
    let height = window.bottom as i64 - window.top as i64;
    let fits = window.left > i32::MIN && window.top > i32::MIN && i32::MIN as i64 <= width && width
        <= i32::MAX as i64 && i32::MIN as i64 + 6 <= height && height <= i32::MAX as i64 && (
    height - 6 >= 0 || width >= i32::MIN as i64 + 2) && (height - 6 < 0 || width >= i32::MIN as i64
        + 6);
    let b: i64 = if height - 6 < 0 || width - 6 < 0 {
        1
    } else {
        3
    };
    let strips_fit = window.left as i64 + b <= i32::MAX as i64 && window.top as i64 + b
        <= i32::MAX as i64 && window.right as i64 - b >= i32::MIN as i64 && window.bottom as i64 - b
        >= i32::MIN as i64;
    fits && (!show_hidden || strips_fit)
}

/// The two rectangles whose difference `highlight_border` paints, in the
/// window's own coordinates: the window grown by 2 pixels on each side, and
/// that rectangle shrunk by 5.
pub fn highlight_rects(window: Rect) -> (rects: (Rect, Rect))
    requires
        highlight_fits(window),
    ensures
        rects.0 == (Rect {
            left: -2i32,
            top: -2i32,
            right: (window.right - window.left + 2) as i32,
            bottom: (window.bottom - window.top + 2) as i32,
        }),
        rects.1 == (Rect {
            left: 3i32,
            top: 3i32,
            right: (window.right - window.left - 3) as i32,
            bottom: (window.bottom - window.top - 3) as i32,
        }),
{
    let rc = offset_rect(window, -window.left, -window.top);
    let outer = inflate_rect(rc, 2, 2);
    let inner = inflate_rect(outer, -5, -5);
    (outer, inner)
}

/// Width of the inverted frame: 3 pixels, or 1 where the window is less than
/// 6 pixels wide or high.
pub open spec fn frame_border(width: int, height: int) -> int {
    if height - 6 < 0 || width - 6 < 0 {
        1
    } else {
        3
    }
}

/// The four strips that `invert_window` inverts, in the window's own
/// coordinates: top, left, bottom and right.
pub open spec fn frame_strips(width: int, height: int) -> Seq<(int, int, int, int)> {
    let b = frame_border(width, height);
    seq![(0, 0, width, b), (0, b, b, height), (b, height - b, width, height), (width - b, b, width, height - b)]
}

pub open spec fn strip_contains(s: (int, int, int, int), x: int, y: int) -> bool {
    s.0 <= x < s.2 && s.1 <= y < s.3
}

pub open spec fn strip_as_rect(s: (int, int, int, int), dx: int, dy: int) -> Rect {
    Rect {
        left: (s.0 + dx) as i32,
        top: (s.1 + dy) as i32,
        right: (s.2 + dx) as i32,
        bottom: (s.3 + dy) as i32,
    }
}

/// The strips of `frame_strips` as rectangles: in the window's own
/// coordinates, or, with `show_hidden`, moved back to the screen.
pub open spec fn frame_rects(window: Rect, show_hidden: bool) -> Seq<Rect> {
    let s = frame_strips(window.right - window.left, window.bottom - window.top);
    let dx: int = if show_hidden { window.left as int } else { 0 };
    let dy: int = if show_hidden { window.top as int } else { 0 };
    Seq::new(4, |i: int| strip_as_rect(s[i], dx, dy))
}

/// The strips that `invert_window` inverts around a window.
pub fn invert_frame_rects(window: Rect, show_hidden: bool) -> (strips: [Rect; 4])
    requires
        invert_fits(window),
        show_hidden ==> invert_strips_fit(window),
    ensures
        strips@ == frame_rects(window, show_hidden),
{
    let x1 = window.left;
    let y1 = window.top;
    let rect = offset_rect(window, -x1, -y1);
    let mut border: i32 = 3;
    if rect.bottom - border * 2 < 0 {
        border = 1;
    }
    if rect.right - border * 2 < 0 {
        border = 1;
    }
    assert(border == frame_border(window.right - window.left, window.bottom - window.top));
    let top = set_rect(0, 0, rect.right, border);
    let left = set_rect(0, border, border, rect.bottom);
    let bottom = set_rect(border, rect.bottom - border, rect.right, rect.bottom);
    let right = set_rect(rect.right - border, border, rect.right, rect.bottom - border);
    let strips = if show_hidden {
        [
            offset_rect(top, x1, y1),
            offset_rect(left, x1, y1),
            offset_rect(bottom, x1, y1),
            offset_rect(right, x1, y1),
        ]
    } else {
        [top, left, bottom, right]
    };
    assert(strips@ =~= frame_rects(window, show_hidden));
    strips
}

/// Around a window at least 2 pixels wide and high, the inverted strips do not
/// overlap, and together they are exactly the band of the frame's width along
/// the window's edges. Each pixel of the band is therefore inverted once, and
/// inverting the frame a second time restores the window.
pub proof fn lemma_frame_strips_partition_band(width: int, height: int, x: int, y: int)
    requires
        width >= 2,
        height >= 2,
        0 <= x < width,
        0 <= y < height,
    ensures
        ({
            let b = frame_border(width, height);
            let s = frame_strips(width, height);
            let in_band = x < b || y < b || x >= width - b || y >= height - b;
            &&& in_band <==> (exists|i: int| 0 <= i < 4 && strip_contains(#[trigger] s[i], x, y))
            &&& forall|i: int, j: int|
                0 <= i < j < 4 ==> !(strip_contains(#[trigger] s[i], x, y) && strip_contains(
                    #[trigger] s[j],
                    x,
                    y,
                ))
        }),
{
    let b = frame_border(width, height);
    let s = frame_strips(width, height);
    if x < b || y < b || x >= width - b || y >= height - b {
        if y < b {
            assert(strip_contains(s[0], x, y));
        } else if x < b {
            assert(strip_contains(s[1], x, y));
        } else if y >= height - b {
            assert(strip_contains(s[2], x, y));
        } else {
            assert(strip_contains(s[3], x, y));
        }
    }
}

} // verus!
