//! Window descriptors: which of the windows that the desktop enumerates are
//! listed, and which window a request asks to activate.

use crate::text::{last_segment, last_segment_of, parse_usize, same_text, usize_value};
use vstd::prelude::*;

verus! {

/// The text shown for a title or class name that could not be read.
pub const UNKNOWN_TEXT: &'static str = "??????";

/// The smallest width and height, exclusive, of a listed window.
pub const MIN_EXTENT: i64 = 10;

/// A listed window.
#[derive(Debug, Clone)]
pub struct WindowInfo {
    pub class_name: String,
    pub title: String,
    pub hwnd: usize,
    pub height: i32,
    pub width: i32,
    pub x: i32,
    pub y: i32,
}

/// A window's rectangle on screen.
#[derive(Debug, Clone, Copy, PartialEq, Eq, Structural)]
pub struct WindowRect {
    pub left: i32,
    pub top: i32,
    pub right: i32,
    pub bottom: i32,
}

/// A window as the desktop enumerates it; what could not be read is `None`.
#[derive(Debug, Clone)]
pub struct RawWindow {
    pub hwnd: usize,
    pub title: Option<String>,
    pub class_name: Option<String>,
    pub rect: Option<WindowRect>,
}

/// A text as listed: the one read, or the placeholder.
pub open spec fn shown_text(read: Option<String>) -> Seq<char> {
    match read {
        Some(t) => t@,
        None => UNKNOWN_TEXT@,
    }
}

/// The rectangle used for a window: the one read, or an empty one at the origin.
pub open spec fn shown_rect(read: Option<WindowRect>) -> WindowRect {
    match read {
        Some(r) => r,
        None => WindowRect { left: 0, top: 0, right: 0, bottom: 0 },
    }
}

/// Whether a window is listed: it has a title, and its width and height
/// exceed the minimum and fit an `i32`.
pub open spec fn is_listed(w: RawWindow) -> bool {
    let r = shown_rect(w.rect);
    &&& shown_text(w.title).len() > 0
    &&& MIN_EXTENT < r.right - r.left <= i32::MAX
    &&& MIN_EXTENT < r.bottom - r.top <= i32::MAX
}

/// Whether `info` describes `w` as listed.
pub open spec fn describes(info: WindowInfo, w: RawWindow) -> bool {
    let r = shown_rect(w.rect);
    &&& info.title@ == shown_text(w.title)
    &&& info.class_name@ == shown_text(w.class_name)
    &&& info.hwnd == w.hwnd
    &&& info.x == r.left
    &&& info.y == r.top
    &&& info.width == r.right - r.left
    &&& info.height == r.bottom - r.top
}

/// The listed windows among those enumerated, in order.
pub open spec fn listed(ws: Seq<RawWindow>) -> Seq<RawWindow>
    decreases ws.len(),
{
    if ws.len() == 0 {
        Seq::empty()
    } else if is_listed(ws.last()) {
        listed(ws.drop_last()).push(ws.last())
    } else {
        listed(ws.drop_last())
    }
}

fn shown(read: &Option<String>) -> (r: String)
    ensures
        r@ == shown_text(*read),
{
    match read {
        Some(t) => t.clone(),
        None => UNKNOWN_TEXT.to_owned(),
    }
}

/// The descriptor of an enumerated window, if it is listed.
pub fn window_entry(w: &RawWindow) -> (r: Option<WindowInfo>)
    ensures
        is_listed(*w) <==> r is Some,
        r matches Some(info) ==> describes(info, *w),
{
    proof {
        reveal_strlit("??????");
    }
    let rect = match w.rect {
        Some(r) => r,
        None => WindowRect { left: 0, top: 0, right: 0, bottom: 0 },
    };
    let width = rect.right as i64 - rect.left as i64;
    let height = rect.bottom as i64 - rect.top as i64;
    let title = shown(&w.title);
    if title.unicode_len() == 0 || width <= MIN_EXTENT || height <= MIN_EXTENT || width > i32::MAX as i64
        || height > i32::MAX as i64 {
        return None;
    }
    let class_name = shown(&w.class_name);
    Some(WindowInfo {
        class_name,
        title,
        hwnd: w.hwnd,
        height: height as i32,
        width: width as i32,
        x: rect.left,
        y: rect.top,
    })
}

/// The descriptors of the listed windows among those enumerated, in order.
pub fn collect_windows(ws: Vec<RawWindow>) -> (r: Vec<WindowInfo>)
    ensures
        r@.len() == listed(ws@).len(),
        forall|i: int| 0 <= i < r@.len() ==> describes(#[trigger] r@[i], listed(ws@)[i]),
{
    let ghost all = ws@;
    let mut out: Vec<WindowInfo> = Vec::new();
    let mut i: usize = 0;
    let n = ws.len();
    while i < n
        invariant
            n == all.len(),
            0 <= i <= n,
            ws@ == all,
            out@.len() == listed(all.subrange(0, i as int)).len(),
            forall|k: int| 0 <= k < out@.len() ==> describes(#[trigger] out@[k], listed(all.subrange(0, i as int))[k]),
        decreases n - i,
    {
        proof {
            assert(all.subrange(0, i + 1).drop_last() =~= all.subrange(0, i as int));
            assert(all.subrange(0, i + 1).last() == all[i as int]);
        }
        match window_entry(&ws[i]) {
            Some(info) => out.push(info),
            None => {},
        }
        i = i + 1;
    }
    proof {
        assert(all.subrange(0, n as int) =~= all);
    }
    out
}

/// Which window a request path asks to activate: none when its last segment
/// is `null`, else the handle it spells in decimal; `None` when it spells none.
pub fn window_target(path: &str) -> (r: Option<Option<usize>>)
    ensures
        last_segment_of(path@) == "null"@ ==> r == Some(None::<usize>),
        last_segment_of(path@) != "null"@ ==> r == match usize_value(last_segment_of(path@)) {
            Some(h) => Some(Some(h)),
            None => None::<Option<usize>>,
        },
{
    let segment = last_segment(path);
    if same_text(segment, "null") {
        Some(None)
    } else {
        match parse_usize(segment) {
            Some(h) => Some(Some(h)),
            None => None,
        }
    }
}

} // verus!
