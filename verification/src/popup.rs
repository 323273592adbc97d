//! Placement and width of the small status popup near the text being edited.
use crate::text::chars_of;
use vstd::prelude::*;

verus! {

/// Height of the status popup.
pub const STATUS_HEIGHT: i32 = 30;

/// Narrowest status popup.
pub const STATUS_MIN_WIDTH: i32 = 112;

/// Widest status popup.
pub const STATUS_MAX_WIDTH: i32 = 300;

/// A rectangle in screen coordinates.
#[derive(Clone, Copy, Debug, PartialEq, Eq)]
pub struct Rect {
    pub left: i32,
    pub top: i32,
    pub right: i32,
    pub bottom: i32,
}

/// Which side of the anchor the popup grows from.
#[derive(Clone, Copy, Debug, PartialEq, Eq)]
pub enum PopupSide {
    Right,
    Left,
}

/// Where the popup is placed: beside `edge_x` on `side`, at height `y`, within the
/// horizontal work area `work_left..work_right`.
#[derive(Clone, Copy, Debug, PartialEq, Eq)]
pub struct PopupAnchor {
    pub side: PopupSide,
    pub edge_x: i32,
    pub y: i32,
    pub max_width: i32,
    pub work_left: i32,
    pub work_right: i32,
}

/// `v` limited to `lo..=hi` (for `lo <= hi`).
pub open spec fn clamp(v: int, lo: int, hi: int) -> int {
    if v < lo {
        lo
    } else if v > hi {
        hi
    } else {
        v
    }
}

/// The smaller of `a` and `b`.
pub open spec fn min(a: int, b: int) -> int {
    if a <= b {
        a
    } else {
        b
    }
}

/// The larger of `a` and `b`.
pub open spec fn max(a: int, b: int) -> int {
    if a >= b {
        a
    } else {
        b
    }
}

/// Whether placing a popup of `width` at `a` stays within `i32` arithmetic.
pub open spec fn position_fits(a: PopupAnchor, width: i32) -> bool {
    let w = min(width as int, a.max_width as int);
    &&& i32::MIN <= a.edge_x - w <= i32::MAX
    &&& i32::MIN <= a.work_right - w <= i32::MAX
}

/// The top-left corner of a popup of `width` at `a`: the width is capped at
/// `max_width`; the popup starts at the edge (right side) or ends at it (left side),
/// and is kept inside the work area as far as it fits.
pub open spec fn popup_position(a: PopupAnchor, width: i32) -> (int, int) {
    let w = min(width as int, a.max_width as int);
    let x = match a.side {
        PopupSide::Right => a.edge_x as int,
        PopupSide::Left => a.edge_x - w,
    };
    (clamp(x, a.work_left as int, max(a.work_right - w, a.work_left as int)), a.y as int)
}

impl PopupAnchor {
    /// The top-left corner of a popup of `width` placed at this anchor.
    pub fn position(self, width: i32) -> (res: (i32, i32))
        requires
            position_fits(self, width),
        ensures
            res.0 as int == popup_position(self, width).0,
            res.1 as int == popup_position(self, width).1,
    {
        let w = if width <= self.max_width {
            width
        } else {
            self.max_width
        };
        let x = match self.side {
            PopupSide::Right => self.edge_x,
            PopupSide::Left => self.edge_x - w,
        };
        let right_limit = self.work_right - w;
        let hi = if right_limit >= self.work_left {
            right_limit
        } else {
            self.work_left
        };
        let clamped = if x < self.work_left {
            self.work_left
        } else if x > hi {
            hi
        } else {
            x
        };
        (clamped, self.y)
    }
}

/// While the popup fits in the work area, the anchored edge stays where it is,
/// whatever the width: a right-side popup starts at the edge, a left-side one ends there.
pub proof fn lemma_anchor_edge_stays_fixed(a: PopupAnchor, width: i32)
    requires
        position_fits(a, width),
        0 <= width <= a.max_width,
        a.work_left <= a.edge_x - (if a.side == PopupSide::Left { width as int } else { 0 }),
        a.edge_x + (if a.side == PopupSide::Right { width as int } else { 0 }) <= a.work_right,
    ensures
        a.side == PopupSide::Right ==> popup_position(a, width).0 == a.edge_x,
        a.side == PopupSide::Left ==> popup_position(a, width).0 + width == a.edge_x,
{
}

/// The status popup between messages: whether it shows, and where it was last placed.
#[derive(Clone, Copy, Debug, PartialEq, Eq)]
pub struct PopupState {
    pub visible: bool,
    pub anchor: Option<PopupAnchor>,
}

/// Whether showing a message takes a new anchor: for a new task, when the popup is
/// hidden, or when it has never been placed.
pub open spec fn needs_anchor(s: PopupState, new_task: bool) -> bool {
    new_task || !s.visible || s.anchor is None
}

/// The anchor a message is shown at: the freshly captured one when a new anchor is
/// needed, else the one the popup already has.
pub open spec fn anchor_after(s: PopupState, new_task: bool, captured: PopupAnchor) -> PopupAnchor {
    if needs_anchor(s, new_task) {
        captured
    } else {
        s.anchor->0
    }
}

impl PopupState {
    /// A popup that has not been shown yet.
    pub fn hidden() -> (res: PopupState)
        ensures
            res == (PopupState { visible: false, anchor: None }),
    {
        PopupState { visible: false, anchor: None }
    }

    /// Whether showing a message takes a new anchor; only then need the caller find
    /// the text position.
    pub fn needs_new_anchor(&self, new_task: bool) -> (res: bool)
        ensures
            res == needs_anchor(*self, new_task),
    {
        new_task || !self.visible || self.anchor.is_none()
    }

    /// Shows a message: returns the anchor to place it at (`captured` when a new one
    /// is needed) and keeps it; the popup is then visible.
    pub fn show(&mut self, new_task: bool, captured: PopupAnchor) -> (res: PopupAnchor)
        ensures
            res == anchor_after(*old(self), new_task, captured),
            *final(self) == (PopupState { visible: true, anchor: Some(res) }),
    {
        let anchor = match self.anchor {
            Some(a) => if new_task || !self.visible {
                captured
            } else {
                a
            },
            None => captured,
        };
        self.anchor = Some(anchor);
        self.visible = true;
        anchor
    }

    /// Hides the popup when its time is over; its anchor is kept.
    pub fn time_out(&mut self)
        ensures
            *final(self) == (PopupState { visible: false, anchor: old(self).anchor }),
    {
        self.visible = false;
    }
}

/// While a task's popup stays on screen, its later messages stay where the first one
/// was placed; once it was hidden, or for a new task, it moves to the text again.
pub proof fn lemma_popup_stays_put_within_a_task(s: PopupState, captured: PopupAnchor, a: PopupAnchor)
    requires
        s.visible,
        s.anchor == Some(a),
    ensures
        anchor_after(s, false, captured) == a,
        anchor_after(s, true, captured) == captured,
        anchor_after(PopupState { visible: false, ..s }, false, captured) == captured,
{
}

/// A popup placed at an anchor keeps the anchor's height, never starts left of the work
/// area, and, when it fits in the work area, never ends right of it either; its width
/// never exceeds the anchor's limit.
pub proof fn lemma_popup_stays_in_the_work_area(a: PopupAnchor, width: i32)
    requires
        position_fits(a, width),
    ensures
        popup_position(a, width).1 == a.y,
        popup_position(a, width).0 >= a.work_left,
        (0 <= width && min(width as int, a.max_width as int) <= a.work_right - a.work_left) ==> popup_position(
            a,
            width,
        ).0 + min(width as int, a.max_width as int) <= a.work_right,
{
}

/// The display width of one character in the popup.
pub open spec fn char_units(c: char) -> nat {
    if (c as u32) < 128 {
        7
    } else {
        14
    }
}

/// The display width of a text: 7 per ASCII character and 14 per other character.
pub open spec fn text_units(s: Seq<char>) -> nat
    decreases s.len(),
{
    if s.len() == 0 {
        0
    } else {
        text_units(s.drop_last()) + char_units(s.last())
    }
}

proof fn lemma_text_units_prefix(s: Seq<char>, i: int, j: int)
    requires
        0 <= i <= j <= s.len(),
    ensures
        text_units(s.take(i)) <= text_units(s.take(j)),
    decreases j - i,
{
    if i < j {
        lemma_text_units_prefix(s, i, j - 1);
        assert(s.take(j).drop_last() =~= s.take(j - 1));
    }
}

/// Every ASCII character widens the popup text by 7 pixels and every other character
/// by 14; the popup is 26 pixels wider than its text, but at least 112 and at most 300.
pub proof fn lemma_status_width_counts_characters(s: Seq<char>, c: char)
    ensures
        text_units(Seq::empty()) == 0,
        text_units(s.push(c)) == text_units(s) + (if (c as u32) < 128 { 7int } else { 14int }),
        status_width(s) == (if text_units(s) + 26 < 112 {
            112
        } else if text_units(s) + 26 > 300 {
            300
        } else {
            text_units(s) + 26
        }),
{
    assert(s.push(c).drop_last() =~= s);
}

/// The popup width for `message`: its display width plus 26, within the limits.
pub open spec fn status_width(message: Seq<char>) -> int {
    clamp((text_units(message) + 26) as int, STATUS_MIN_WIDTH as int, STATUS_MAX_WIDTH as int)
}

/// Whatever the message, the popup is between its narrowest and widest width.
pub proof fn lemma_status_width_within_limits(message: Seq<char>)
    ensures
        STATUS_MIN_WIDTH <= status_width(message) <= STATUS_MAX_WIDTH,
{
}

/// The popup width for `message`.
pub fn status_text_width(message: &str) -> (res: i32)
    requires
        text_units(message@) + 26 <= i32::MAX,
    ensures
        res as int == status_width(message@),
{
    let v = chars_of(message);
    let mut total: i32 = 0;
    let mut i: usize = 0;
    while i < v.len()
        invariant
            v@ == message@,
            i <= v.len(),
            total as int == text_units(v@.take(i as int)),
            text_units(message@) + 26 <= i32::MAX,
        decreases v.len() - i,
    {
        proof {
            lemma_text_units_prefix(v@, i + 1, v@.len() as int);
            assert(v@.take(v@.len() as int) =~= v@);
            assert(v@.take(i + 1).drop_last() =~= v@.take(i as int));
        }
        let units: i32 = if (v[i] as u32) < 128 {
            7
        } else {
            14
        };
        total = total + units;
        i = i + 1;
    }
    assert(v@.take(v@.len() as int) =~= v@);
    let width = total + 26;
    if width < STATUS_MIN_WIDTH {
        STATUS_MIN_WIDTH
    } else if width > STATUS_MAX_WIDTH {
        STATUS_MAX_WIDTH
    } else {
        width
    }
}

/// Whether placing a popup near `anchor` within `work` stays within `i32` arithmetic.
pub open spec fn anchor_fits(anchor: Rect, work: Rect) -> bool {
    &&& anchor.right + 8 <= i32::MAX
    &&& anchor.left - 8 >= i32::MIN
    &&& i32::MIN <= work.right - (anchor.right + 8) <= i32::MAX
    &&& i32::MIN <= (anchor.left - 8) - work.left <= i32::MAX
    &&& anchor.bottom + 8 + STATUS_HEIGHT <= i32::MAX
    &&& anchor.top - STATUS_HEIGHT - 8 >= i32::MIN
    &&& work.bottom - STATUS_HEIGHT >= i32::MIN
}

/// The popup anchor for text at `anchor` on a monitor whose work area is `work`: the
/// popup goes 8 pixels to the right of the text, or to the left when there is more room
/// there; 8 pixels below it, or above it when it would leave the work area; its width
/// is limited by the room on that side (within the popup limits).
pub open spec fn anchor_near(anchor: Rect, work: Rect) -> PopupAnchor {
    let right_edge = anchor.right + 8;
    let left_edge = anchor.left - 8;
    let right_space = work.right - right_edge;
    let left_space = left_edge - work.left;
    let below = anchor.bottom + 8;
    let y = if below + STATUS_HEIGHT > work.bottom {
        anchor.top - STATUS_HEIGHT - 8
    } else {
        below
    };
    let y = clamp(y, work.top as int, max(work.bottom - STATUS_HEIGHT, work.top as int));
    let (side, edge_x, available) = if right_space >= left_space {
        (PopupSide::Right, right_edge, right_space)
    } else {
        (PopupSide::Left, left_edge, left_space)
    };
    PopupAnchor {
        side,
        edge_x: edge_x as i32,
        y: y as i32,
        max_width: clamp(available, STATUS_MIN_WIDTH as int, STATUS_MAX_WIDTH as int) as i32,
        work_left: work.left,
        work_right: work.right,
    }
}

/// The popup goes on the side of the text with more room (the right side on a tie),
/// 8 pixels from the text, and its width is limited by the room on that same side,
/// within 112 to 300 pixels; it sits 8 pixels below the text unless it would leave the
/// work area there, then 8 pixels above (each as far as the work area allows), and
/// never above or below the work area when it fits in it.
pub proof fn lemma_popup_goes_where_there_is_room(anchor: Rect, work: Rect)
    requires
        anchor_fits(anchor, work),
    ensures
        ({
            let a = anchor_near(anchor, work);
            let right_room = work.right - (anchor.right + 8);
            let left_room = (anchor.left - 8) - work.left;
            let room = if a.side == PopupSide::Right { right_room } else { left_room };
            &&& (a.side == PopupSide::Right) == (right_room >= left_room)
            &&& a.side == PopupSide::Right ==> a.edge_x == anchor.right + 8
            &&& a.side == PopupSide::Left ==> a.edge_x == anchor.left - 8
            &&& room <= 112 ==> a.max_width == 112
            &&& room >= 300 ==> a.max_width == 300
            &&& 112 <= room <= 300 ==> a.max_width == room
            &&& anchor.bottom + 8 + STATUS_HEIGHT <= work.bottom && work.top <= anchor.bottom + 8
                ==> a.y == anchor.bottom + 8
            &&& anchor.bottom + 8 + STATUS_HEIGHT > work.bottom && work.top <= anchor.top
                - STATUS_HEIGHT - 8 && anchor.top - 8 <= work.bottom ==> a.y == anchor.top
                - STATUS_HEIGHT - 8
            &&& work.top + STATUS_HEIGHT <= work.bottom ==> work.top <= a.y && a.y + STATUS_HEIGHT
                <= work.bottom
            &&& a.work_left == work.left && a.work_right == work.right
        }),
{
}

/// The popup anchor for text at `anchor` within the work area `work`.
pub fn popup_anchor(anchor: Rect, work: Rect) -> (res: PopupAnchor)
    requires
        anchor_fits(anchor, work),
    ensures
        res == anchor_near(anchor, work),
{
    let right_edge = anchor.right + 8;
    let left_edge = anchor.left - 8;
    let right_space = work.right - right_edge;
    let left_space = left_edge - work.left;
    let (side, edge_x, available) = if right_space >= left_space {
        (PopupSide::Right, right_edge, right_space)
    } else {
        (PopupSide::Left, left_edge, left_space)
    };
    let mut y = anchor.bottom + 8;
    if y + STATUS_HEIGHT > work.bottom {
        y = anchor.top - STATUS_HEIGHT - 8;
    }
    let lowest = if work.bottom - STATUS_HEIGHT >= work.top {
        work.bottom - STATUS_HEIGHT
    } else {
        work.top
    };
    let y = if y < work.top {
        work.top
    } else if y > lowest {
        lowest
    } else {
        y
    };
    let max_width = if available < STATUS_MIN_WIDTH {
        STATUS_MIN_WIDTH
    } else if available > STATUS_MAX_WIDTH {
        STATUS_MAX_WIDTH
    } else {
        available
    };
    PopupAnchor { side, edge_x, y, max_width, work_left: work.left, work_right: work.right }
}

/// The one-pixel rectangle at a point, used when no text position is known.
pub fn point_rect(x: i32, y: i32) -> (res: Rect)
    requires
        x < i32::MAX,
        y < i32::MAX,
    ensures
        res == (Rect { left: x, top: y, right: (x + 1) as i32, bottom: (y + 1) as i32 }),
{
    Rect { left: x, top: y, right: x + 1, bottom: y + 1 }
}

/// The rectangle of a caret given by two corners: at least one pixel wide and high.
pub fn caret_rect(left: i32, top: i32, right: i32, bottom: i32) -> (res: Rect)
    requires
        left < i32::MAX,
        top < i32::MAX,
    ensures
        res == (Rect {
            left,
            top,
            right: max(right as int, left + 1) as i32,
            bottom: max(bottom as int, top + 1) as i32,
        }),
{
    Rect {
        left,
        top,
        right: if right >= left + 1 {
            right
        } else {
            left + 1
        },
        bottom: if bottom >= top + 1 {
            bottom
        } else {
            top + 1
        },
    }
}

/// Whether a focused control is small enough to stand for the text position:
/// at most 1000 wide and 500 high.
pub fn is_compact_focus_rect(rect: Rect) -> (res: bool)
    ensures
        res == (rect.right - rect.left <= 1000 && rect.bottom - rect.top <= 500),
{
    (rect.right as i64 - rect.left as i64) <= 1000 && (rect.bottom as i64 - rect.top as i64) <= 500
}

} // verus!
