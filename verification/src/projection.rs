//! The render projection: a pure function from controller state and viewport
//! size to one draw command per entry. The host's drawing backend consumes
//! the commands; nothing here touches a screen.
//!
//! Coordinates and sizes are in milli-pixels (1000 per pixel), scale factors
//! in thousandths (1000 is 1.0), so every interpolation of the original's
//! floating-point formulas is exact integer arithmetic.

use vstd::prelude::*;

use crate::carousel::MenuItem;
use crate::carousel::MlbApp;
use crate::carousel::PROGRESS_DONE;

verus! {

/// Spacing between neighbouring cards is 1.3 card widths, in tenths.
pub const PITCH_NUM: u64 = 13;

/// Denominator of [`PITCH_NUM`].
pub const PITCH_DEN: u64 = 10;

/// Font size of the "home vs away" title, milli-pixels.
pub const TITLE_FONT_MILLI: u64 = 22_000;

/// Font size of the recap caption, milli-pixels.
pub const CAPTION_FONT_MILLI: u64 = 15_000;

/// Magnitude bound on the coordinates a single-entry render accepts; wide
/// enough for any viewport and entry index the controller allows.
pub const MAX_COORD_MILLI: i64 = 10_000_000_000_000;

/// Placement of the two text labels the highlighted card carries: each
/// horizontally centred with its pre-measured width, the title above and
/// the caption below the scaled card.
#[derive(Clone, Copy, Debug)]
pub struct LabelPlacement {
    pub title_x_milli: i64,
    pub title_y_milli: i64,
    pub caption_x_milli: i64,
    pub caption_y_milli: i64,
}

/// One drawing instruction: paint the card of `entry_index` centred at
/// (`x_milli`, `y_milli`) at `scale_milli`, and, when it is the highlighted
/// card, its two labels as well.
#[derive(Clone, Copy, Debug)]
pub struct DrawCommand {
    pub entry_index: usize,
    pub x_milli: i64,
    pub y_milli: i64,
    pub scale_milli: u32,
    pub highlighted: bool,
    pub labels: Option<LabelPlacement>,
}

/// The selection index the projection draws with: the stored index, or 0
/// when none is defined (an empty list never reaches the per-entry math).
pub open spec fn effective_selected(s: MlbApp) -> int {
    match s.selected_idx {
        Some(i) => i as int,
        None => 0,
    }
}

/// The animation's start index: the stored previous selection, or the
/// current one when none is defined (then nothing moves).
pub open spec fn effective_previous(s: MlbApp) -> int {
    match s.prev_selected_idx {
        Some(i) => i as int,
        None => effective_selected(s),
    }
}

/// The fractional index the carousel is scrolled to, in thousandths:
/// linear interpolation from `prev` to `sel` by transition progress `p`.
pub open spec fn scroll_offset_milli(prev: int, sel: int, p: int) -> int {
    prev * 1000 + p * (sel - prev)
}

/// Horizontal distance between neighbouring cards, milli-pixels: 1.3 card
/// widths, so an enlarged highlighted card does not overlap its neighbours.
pub open spec fn pitch_milli(width_milli: int) -> int {
    width_milli * PITCH_NUM / PITCH_DEN as int
}

/// Horizontal centre of the card at `idx`: the screen centre, plus one
/// pitch per index, shifted left by the scrolled-to fractional index. The
/// interpolation is in index space; the card width is applied once, here.
pub open spec fn entry_x_milli(vw: int, idx: int, width_milli: int, prev: int, sel: int, p: int) -> int {
    vw * 500 + idx * pitch_milli(width_milli) - scroll_offset_milli(prev, sel, p) * pitch_milli(
        width_milli,
    ) / 1000
}

/// Vertical centre of every card: 1.1 times the screen's half height.
pub open spec fn entry_y_milli(vh: int) -> int {
    vh * 550
}

/// Scale of the highlighted card, thousandths: it grows linearly from 1.0
/// to 1.5 as the transition completes.
pub open spec fn highlight_scale_milli(p: int) -> int {
    1000 + p / 2
}

/// Vertical position of the title label: half the scaled card height above
/// the card centre, and half the title font size further up.
pub open spec fn title_y_milli(y: int, height_milli: int, scale_milli: int) -> int {
    y - (height_milli / 2) * scale_milli / 1000 - TITLE_FONT_MILLI as int / 2
}

/// Vertical position of the caption label: half the scaled card height
/// below the card centre, plus the caption font size.
pub open spec fn caption_y_milli(y: int, height_milli: int, scale_milli: int) -> int {
    y + (height_milli / 2) * scale_milli / 1000 + CAPTION_FONT_MILLI as int
}

/// The labels of a highlighted card at centre (`x`, `y`) with transition
/// progress `p`: each centred with its pre-measured width.
pub open spec fn labels_match(l: LabelPlacement, x: int, y: int, item: MenuItem, p: int) -> bool {
    &&& l.title_x_milli == x - item.title_width_milli as int / 2
    &&& l.title_y_milli == title_y_milli(y, item.height_milli as int, highlight_scale_milli(p))
    &&& l.caption_x_milli == x - item.caption_width_milli as int / 2
    &&& l.caption_y_milli == caption_y_milli(y, item.height_milli as int, highlight_scale_milli(p))
}

/// What the command for entry `idx` of state `s` in a `vw` by `vh` viewport
/// must say: the interpolated position, the highlight flag, the scale (only
/// the highlighted card scales), and labels exactly on the highlighted card.
pub open spec fn command_matches(cmd: DrawCommand, s: MlbApp, vw: int, vh: int, idx: int) -> bool {
    let item = s.items@[idx];
    let sel = effective_selected(s);
    let prev = effective_previous(s);
    let p = s.trans_time_milli as int;
    &&& cmd.entry_index == idx
    &&& cmd.x_milli == entry_x_milli(vw, idx, item.width_milli as int, prev, sel, p)
    &&& cmd.y_milli == entry_y_milli(vh)
    &&& cmd.highlighted == (idx == sel)
    &&& cmd.scale_milli as int == (if idx == sel {
        highlight_scale_milli(p)
    } else {
        1000int
    })
    &&& (idx == sel ==> {
        &&& cmd.labels matches Some(l)
        &&& labels_match(l, cmd.x_milli as int, cmd.y_milli as int, item, p)
    })
    &&& (idx != sel ==> cmd.labels is None)
}

/// `0 <= a <= ab` and `0 <= b <= bb` bound the product by `ab * bb`.
proof fn lemma_mul_bounds(a: int, b: int, ab: int, bb: int)
    by (nonlinear_arith)
    requires
        0 <= a <= ab,
        0 <= b <= bb,
    ensures
        0 <= a * b <= ab * bb,
{
}

/// The interpolated scroll offset never leaves the index range it
/// interpolates over: it stays within `[0, 1000 * bound]` when both
/// endpoints do.
proof fn lemma_scroll_offset_bounds(prev: int, sel: int, p: int, bound: int)
    by (nonlinear_arith)
    requires
        0 <= prev <= bound,
        0 <= sel <= bound,
        0 <= p <= 1000,
    ensures
        0 <= prev * 1000 + p * (sel - prev) <= 1000 * bound,
{
}

impl MenuItem {
    /// The draw command of this card at centre (`x_milli`, `y_milli`):
    /// highlighted cards scale with the transition and carry their two
    /// labels, all others draw at scale 1.0 without labels.
    pub fn render(
        &self,
        entry_index: usize,
        highlighted: bool,
        x_milli: i64,
        y_milli: i64,
        progress_milli: u32,
    ) -> (cmd: DrawCommand)
        requires
            self.wf(),
            progress_milli <= PROGRESS_DONE,
            -MAX_COORD_MILLI <= x_milli <= MAX_COORD_MILLI,
            0 <= y_milli <= MAX_COORD_MILLI,
        ensures
            cmd.entry_index == entry_index,
            cmd.x_milli == x_milli,
            cmd.y_milli == y_milli,
            cmd.highlighted == highlighted,
            cmd.scale_milli as int == (if highlighted {
                highlight_scale_milli(progress_milli as int)
            } else {
                1000int
            }),
            highlighted ==> {
                &&& cmd.labels matches Some(l)
                &&& labels_match(l, x_milli as int, y_milli as int, *self, progress_milli as int)
            },
            !highlighted ==> cmd.labels is None,
    {
        let scale_milli: u32 = if highlighted {
            1000 + progress_milli / 2
        } else {
            1000
        };
        let labels: Option<LabelPlacement> = if highlighted {
            let half_title: i64 = (self.title_width_milli / 2) as i64;
            let half_caption: i64 = (self.caption_width_milli / 2) as i64;
            proof {
                lemma_mul_bounds(
                    self.height_milli as int / 2,
                    scale_milli as int,
                    5_000_000,
                    1500,
                );
            }
            let half_height_scaled: i64 = ((self.height_milli / 2) * (scale_milli as u64)
                / 1000) as i64;
            Some(
                LabelPlacement {
                    title_x_milli: x_milli - half_title,
                    title_y_milli: y_milli - half_height_scaled - ((TITLE_FONT_MILLI / 2) as i64),
                    caption_x_milli: x_milli - half_caption,
                    caption_y_milli: y_milli + half_height_scaled + (CAPTION_FONT_MILLI as i64),
                },
            )
        } else {
            None
        };
        DrawCommand { entry_index, x_milli, y_milli, scale_milli, highlighted, labels }
    }
}

impl MlbApp {
    /// Project the whole state to draw commands: one per entry, in entry
    /// order, each as [`command_matches`] demands. An empty entry list
    /// yields no commands at all, and an undefined selection is drawn as
    /// index 0; neither is an error.
    pub fn render(&self, viewport_width: u32, viewport_height: u32) -> (cmds: Vec<DrawCommand>)
        requires
            self.wf(),
        ensures
            cmds@.len() == self.items@.len(),
            forall|i: int|
                0 <= i < cmds@.len() ==> command_matches(
                    cmds@[i],
                    *self,
                    viewport_width as int,
                    viewport_height as int,
                    i,
                ),
    {
        let mut cmds: Vec<DrawCommand> = Vec::new();
        if self.items.len() == 0 {
            return cmds;
        }
        let sel: usize = match self.selected_idx {
            Some(s) => s,
            None => 0,
        };
        let prev: usize = match self.prev_selected_idx {
            Some(q) => q,
            None => sel,
        };
        let p: u32 = self.trans_time_milli;
        proof {
            lemma_scroll_offset_bounds(prev as int, sel as int, p as int, 9999);
        }
        let scroll_signed: i64 = (prev as i64) * 1000 + (p as i64) * ((sel as i64) - (prev
            as i64));
        let scroll: u64 = scroll_signed as u64;
        let cx_base: i64 = (viewport_width as i64) * 500;
        let y: i64 = (viewport_height as i64) * 550;
        let mut idx: usize = 0;
        while idx < self.items.len()
            invariant
                self.wf(),
                self.items@.len() > 0,
                0 <= idx <= self.items@.len(),
                cmds@.len() == idx,
                sel as int == effective_selected(*self),
                prev as int == effective_previous(*self),
                sel < self.items@.len(),
                prev < self.items@.len(),
                p == self.trans_time_milli,
                scroll as int == scroll_offset_milli(prev as int, sel as int, p as int),
                scroll <= 9_999_000,
                cx_base == viewport_width as int * 500,
                y == entry_y_milli(viewport_height as int),
                forall|i: int|
                    0 <= i < idx ==> command_matches(
                        cmds@[i],
                        *self,
                        viewport_width as int,
                        viewport_height as int,
                        i,
                    ),
            decreases self.items@.len() - idx,
        {
            let item = &self.items[idx];
            let pitch: u64 = item.width_milli * PITCH_NUM / PITCH_DEN;
            proof {
                lemma_mul_bounds(idx as int, pitch as int, 9999, 13_000_000);
                lemma_mul_bounds(scroll as int, pitch as int, 9_999_000, 13_000_000);
            }
            let x: i64 = cx_base + (idx as i64) * (pitch as i64) - ((scroll * pitch / 1000) as i64);
            let cmd = item.render(idx, idx == sel, x, y, p);
            cmds.push(cmd);
            idx = idx + 1;
        }
        cmds
    }
}

} // verus!
