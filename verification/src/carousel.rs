//! The carousel controller: an ordered list of menu entries, the loaded date,
//! the selection indices and the animation progress scalar, with the
//! navigation and per-tick operations that mutate them.
//!
//! All animation quantities are fixed-point integers. Transition progress
//! runs from 0 to [`PROGRESS_DONE`] (one thousandth units of the unit
//! interval); screen lengths are measured in milli-pixels.

use vstd::prelude::*;

use crate::game::Game;

verus! {

/// Transition progress value meaning "settled": 1.0 in thousandths.
pub const PROGRESS_DONE: u32 = 1000;

/// Progress units gained per millisecond of frame time, so that a
/// transition completes in 100 ms.
pub const RATE_PER_MS: u32 = 10;

/// Most entries a controller may hold; keeps the projection arithmetic
/// comfortably inside `i64`.
pub const MAX_ENTRIES: usize = 10000;

/// Largest entry dimension or measured label width, in milli-pixels
/// (10 000 whole pixels); same purpose as [`MAX_ENTRIES`].
pub const MAX_DIM_MILLI: u64 = 10_000_000;

/// Opaque handle of a decoded image. The host resolves and decodes the
/// recap image and keeps the pixels; the controller only carries the token
/// back out in draw commands.
#[derive(Clone, Copy, Debug, PartialEq, Eq, Structural)]
pub struct ImageHandle {
    pub token: u64,
}

/// One card of the carousel: a game record, its resolved recap image, the
/// card's display size and the pre-measured widths of its two labels, all
/// in milli-pixels.
#[derive(Clone)]
pub struct MenuItem {
    pub game: Game,
    pub width_milli: u64,
    pub height_milli: u64,
    pub image: ImageHandle,
    pub title_width_milli: u64,
    pub caption_width_milli: u64,
}

impl MenuItem {
    /// Dimensions are positive and, like the label widths, small enough
    /// that the render projection cannot overflow.
    pub open spec fn wf(self) -> bool {
        &&& 0 < self.width_milli <= MAX_DIM_MILLI
        &&& 0 < self.height_milli <= MAX_DIM_MILLI
        &&& self.title_width_milli <= MAX_DIM_MILLI
        &&& self.caption_width_milli <= MAX_DIM_MILLI
    }

    pub fn new(
        game: Game,
        width_milli: u64,
        height_milli: u64,
        image: ImageHandle,
        title_width_milli: u64,
        caption_width_milli: u64,
    ) -> (r: MenuItem)
        requires
            0 < width_milli <= MAX_DIM_MILLI,
            0 < height_milli <= MAX_DIM_MILLI,
            title_width_milli <= MAX_DIM_MILLI,
            caption_width_milli <= MAX_DIM_MILLI,
        ensures
            r.wf(),
            r.game == game,
            r.width_milli == width_milli,
            r.height_milli == height_milli,
            r.image == image,
            r.title_width_milli == title_width_milli,
            r.caption_width_milli == caption_width_milli,
    {
        MenuItem { game, width_milli, height_milli, image, title_width_milli, caption_width_milli }
    }
}

/// A calendar date as the schedule identifies one. Day arithmetic is the
/// naive day-of-month step of the original browser: no month or year
/// rollover.
#[derive(Clone, Copy, Debug, PartialEq, Eq, Structural)]
pub struct SimpleDate {
    pub year: u16,
    pub month: u8,
    pub day: u8,
}

/// The carousel controller.
pub struct MlbApp {
    /// The cards of the loaded day, index-addressed; may be empty.
    pub items: Vec<MenuItem>,
    /// Index of the highlighted card; `Some` exactly when `items` is
    /// non-empty, and then always in bounds.
    pub selected_idx: Option<usize>,
    /// Selection before the most recent navigation: the frozen start point
    /// of the running transition.
    pub prev_selected_idx: Option<usize>,
    /// Which day's schedule is loaded.
    pub date: SimpleDate,
    /// Transition progress in thousandths, `0 ..= PROGRESS_DONE`; reset to 0
    /// by each navigation, driven up by `update`, held at `PROGRESS_DONE`.
    pub trans_time_milli: u32,
}

/// Successor selection index: one step right, wrapping from the last entry
/// to the first.
pub open spec fn next_index(sel: int, n: int) -> int {
    (sel + 1) % n
}

/// Predecessor selection index: one step left, wrapping from the first
/// entry to the last. Written wrap-safely, so index 0 never underflows.
pub open spec fn prev_index(sel: int, n: int) -> int {
    (sel + n - 1) % n
}

/// Transition progress after a tick of `dt_ms` milliseconds: it grows by
/// `RATE_PER_MS` per millisecond and is clamped at `PROGRESS_DONE`.
pub open spec fn ticked_progress(t: int, dt_ms: int) -> int {
    if t + dt_ms * RATE_PER_MS >= PROGRESS_DONE {
        PROGRESS_DONE as int
    } else {
        t + dt_ms * RATE_PER_MS
    }
}

/// A fetched schedule replaces the current entries only when it actually
/// holds entries; failure (`None`) and an empty day both leave the
/// controller's list untouched.
pub open spec fn reload_applies(fetched: Option<Vec<MenuItem>>) -> bool {
    fetched matches Some(v) && v@.len() > 0
}

/// The entries that survive menu construction: each game whose recap image
/// the host could resolve, in schedule order; a game whose image could not
/// be resolved is skipped, never allowed to abort the whole reload.
pub open spec fn resolved_entries(s: Seq<Option<MenuItem>>) -> Seq<MenuItem>
    decreases s.len(),
{
    if s.len() == 0 {
        Seq::empty()
    } else {
        let rest = resolved_entries(s.drop_last());
        match s.last() {
            Some(m) => rest.push(m),
            None => rest,
        }
    }
}

/// Where an old selection index lands in a list of `n` entries: kept when
/// still in bounds, clamped to the last entry when the list shrank past it,
/// the first entry when there was none.
pub open spec fn clamped_index(idx: Option<usize>, n: int) -> int {
    match idx {
        Some(i) => if i < n { i as int } else { n - 1 },
        None => 0,
    }
}

impl MlbApp {
    /// The controller's invariant: the entry list is bounded, each entry is
    /// well-formed, both selection indices exist exactly when entries do and
    /// are then in bounds, and progress never exceeds `PROGRESS_DONE`.
    pub open spec fn wf(self) -> bool {
        &&& self.items@.len() <= MAX_ENTRIES
        &&& (self.selected_idx is Some <==> self.items@.len() > 0)
        &&& (self.prev_selected_idx is Some <==> self.items@.len() > 0)
        &&& (self.selected_idx matches Some(i) ==> i < self.items@.len())
        &&& (self.prev_selected_idx matches Some(i) ==> i < self.items@.len())
        &&& self.trans_time_milli <= PROGRESS_DONE
        &&& (forall|i: int| 0 <= i < self.items@.len() ==> self.items@[i].wf())
    }

    /// A freshly loaded controller: first entry selected when there is one,
    /// no selection otherwise, and the transition already settled, so the
    /// very first render does not animate from an undefined prior position.
    pub fn new(items: Vec<MenuItem>, date: SimpleDate) -> (r: MlbApp)
        requires
            items@.len() <= MAX_ENTRIES,
            forall|i: int| 0 <= i < items@.len() ==> items@[i].wf(),
        ensures
            r.wf(),
            r.items == items,
            r.date == date,
            r.trans_time_milli == PROGRESS_DONE,
            items@.len() > 0 ==> r.selected_idx == Some(0usize) && r.prev_selected_idx == Some(
                0usize,
            ),
            items@.len() == 0 ==> r.selected_idx is None && r.prev_selected_idx is None,
    {
        let start: Option<usize> = if items.len() > 0 {
            Some(0)
        } else {
            None
        };
        MlbApp {
            items,
            selected_idx: start,
            prev_selected_idx: start,
            date,
            trans_time_milli: PROGRESS_DONE,
        }
    }

    /// Move the highlight one entry right, wrapping from the last entry to
    /// the first. On an empty list this is a no-op; otherwise it freezes the
    /// old selection as the animation start and restarts the transition.
    pub fn select_next(&mut self)
        requires
            old(self).wf(),
        ensures
            final(self).wf(),
            final(self).items == old(self).items,
            final(self).date == old(self).date,
            old(self).items@.len() == 0 ==> *final(self) == *old(self),
            old(self).items@.len() > 0 ==> {
                &&& final(self).prev_selected_idx == old(self).selected_idx
                &&& final(self).selected_idx matches Some(s) && s as int == next_index(
                    old(self).selected_idx->Some_0 as int,
                    old(self).items@.len() as int,
                )
                &&& final(self).trans_time_milli == 0
            },
    {
        if self.items.len() > 0 {
            match self.selected_idx {
                Some(selected) => {
                    self.prev_selected_idx = self.selected_idx;
                    self.selected_idx = Some((selected + 1) % self.items.len());
                },
                None => {
                    self.selected_idx = Some(0);
                },
            }
            self.trans_time_milli = 0;
        }
    }

    /// Move the highlight one entry left, wrapping from the first entry to
    /// the last; the wrap-safe formula `(sel + n - 1) % n` never underflows.
    /// On an empty list this is a no-op.
    pub fn select_prev(&mut self)
        requires
            old(self).wf(),
        ensures
            final(self).wf(),
            final(self).items == old(self).items,
            final(self).date == old(self).date,
            old(self).items@.len() == 0 ==> *final(self) == *old(self),
            old(self).items@.len() > 0 ==> {
                &&& final(self).prev_selected_idx == old(self).selected_idx
                &&& final(self).selected_idx matches Some(s) && s as int == prev_index(
                    old(self).selected_idx->Some_0 as int,
                    old(self).items@.len() as int,
                )
                &&& final(self).trans_time_milli == 0
            },
    {
        if self.items.len() > 0 {
            match self.selected_idx {
                Some(selected) => {
                    let n = self.items.len();
                    self.prev_selected_idx = self.selected_idx;
                    self.selected_idx = Some((selected + n - 1) % n);
                },
                None => {
                    self.selected_idx = Some(0);
                },
            }
            self.trans_time_milli = 0;
        }
    }

    /// Step the loaded date one day forward (naive day-of-month arithmetic,
    /// no calendar rollover). The host then fetches the new day's schedule
    /// and hands the result to [`MlbApp::rebuild_menu`].
    pub fn increment_day(&mut self)
        requires
            old(self).wf(),
            old(self).date.day < 255,
        ensures
            final(self).wf(),
            final(self).date.year == old(self).date.year,
            final(self).date.month == old(self).date.month,
            final(self).date.day == old(self).date.day + 1,
            final(self).items == old(self).items,
            final(self).selected_idx == old(self).selected_idx,
            final(self).prev_selected_idx == old(self).prev_selected_idx,
            final(self).trans_time_milli == old(self).trans_time_milli,
    {
        self.date.day = self.date.day + 1;
    }

    /// Step the loaded date one day backward; the exact mirror of
    /// [`MlbApp::increment_day`].
    pub fn decrement_day(&mut self)
        requires
            old(self).wf(),
            old(self).date.day > 0,
        ensures
            final(self).wf(),
            final(self).date.year == old(self).date.year,
            final(self).date.month == old(self).date.month,
            final(self).date.day == old(self).date.day - 1,
            final(self).items == old(self).items,
            final(self).selected_idx == old(self).selected_idx,
            final(self).prev_selected_idx == old(self).prev_selected_idx,
            final(self).trans_time_milli == old(self).trans_time_milli,
    {
        self.date.day = self.date.day - 1;
    }

    /// Apply the result of a schedule fetch. A failed fetch or an empty day
    /// leaves entries and selection exactly as they were; a non-empty list
    /// replaces the entries wholesale, with both selection indices clamped
    /// into the new bounds.
    pub fn rebuild_menu(&mut self, fetched: Option<Vec<MenuItem>>)
        requires
            old(self).wf(),
            fetched matches Some(v) ==> v@.len() <= MAX_ENTRIES && (forall|i: int|
                0 <= i < v@.len() ==> v@[i].wf()),
        ensures
            final(self).wf(),
            final(self).date == old(self).date,
            final(self).trans_time_milli == old(self).trans_time_milli,
            !reload_applies(fetched) ==> {
                &&& final(self).items == old(self).items
                &&& final(self).selected_idx == old(self).selected_idx
                &&& final(self).prev_selected_idx == old(self).prev_selected_idx
            },
            reload_applies(fetched) ==> {
                &&& final(self).items == fetched->Some_0
                &&& final(self).selected_idx matches Some(s) && s as int == clamped_index(
                    old(self).selected_idx,
                    fetched->Some_0@.len() as int,
                )
                &&& final(self).prev_selected_idx matches Some(p) && p as int == clamped_index(
                    old(self).prev_selected_idx,
                    fetched->Some_0@.len() as int,
                )
            },
    {
        if let Some(new_items) = fetched {
            if new_items.len() > 0 {
                let len = new_items.len();
                self.items = new_items;
                self.selected_idx = Some(clamp_to(self.selected_idx, len));
                self.prev_selected_idx = Some(clamp_to(self.prev_selected_idx, len));
            }
        }
    }

    /// Build the menu from per-game construction results: the host resolves
    /// one image per scheduled game and hands `Some` entry or, where the
    /// image was unresolvable, `None`. The unresolvable games are skipped;
    /// every other entry is kept, in order.
    pub fn build_menu_items(resolved: Vec<Option<MenuItem>>) -> (r: Vec<MenuItem>)
        ensures
            r@ == resolved_entries(resolved@),
            r@.len() <= resolved@.len(),
            (forall|i: int|
                0 <= i < resolved@.len() ==> (#[trigger] resolved@[i] matches Some(m) ==> m.wf()))
                ==> (forall|j: int| 0 <= j < r@.len() ==> r@[j].wf()),
    {
        let ghost all: Seq<Option<MenuItem>> = resolved@;
        let mut rest = resolved;
        let mut out: Vec<MenuItem> = Vec::new();
        let ghost mut k: int = 0;
        while rest.len() > 0
            invariant
                0 <= k <= all.len(),
                rest@ == all.subrange(k, all.len() as int),
                out@ == resolved_entries(all.subrange(0, k)),
                out@.len() <= k,
                (forall|i: int| 0 <= i < all.len() ==> (#[trigger] all[i] matches Some(m) ==> m.wf()))
                    ==> (forall|j: int| 0 <= j < out@.len() ==> out@[j].wf()),
            decreases rest@.len(),
        {
            let x = rest.remove(0);
            proof {
                assert(all.subrange(k, all.len() as int).first() == all[k]);
                assert(all.subrange(k + 1, all.len() as int) =~= all.subrange(
                    k,
                    all.len() as int,
                ).drop_first());
                assert(all.subrange(0, k + 1).drop_last() =~= all.subrange(0, k));
                assert(all.subrange(0, k + 1).last() == all[k]);
            }
            match x {
                Some(m) => {
                    out.push(m);
                },
                None => {},
            }
            proof {
                k = k + 1;
            }
        }
        proof {
            assert(all.subrange(0, all.len() as int) =~= all);
        }
        out
    }

    /// Advance the transition by `dt_ms` milliseconds of frame time. The
    /// progress scalar follows [`ticked_progress`]: linear growth, clamped
    /// at `PROGRESS_DONE`, and idempotent once there.
    pub fn update(&mut self, dt_ms: u64)
        requires
            old(self).wf(),
        ensures
            final(self).wf(),
            final(self).items == old(self).items,
            final(self).selected_idx == old(self).selected_idx,
            final(self).prev_selected_idx == old(self).prev_selected_idx,
            final(self).date == old(self).date,
            final(self).trans_time_milli as int == ticked_progress(
                old(self).trans_time_milli as int,
                dt_ms as int,
            ),
    {
        if self.trans_time_milli < PROGRESS_DONE {
            // 100 ms of frame time completes a transition from any progress.
            if dt_ms >= 100 {
                self.trans_time_milli = PROGRESS_DONE;
            } else {
                let t = self.trans_time_milli + (dt_ms as u32) * RATE_PER_MS;
                self.trans_time_milli = if t >= PROGRESS_DONE {
                    PROGRESS_DONE
                } else {
                    t
                };
            }
        }
    }
}

/// Where `idx` lands in a list of `len` entries, per [`clamped_index`].
fn clamp_to(idx: Option<usize>, len: usize) -> (r: usize)
    requires
        len > 0,
    ensures
        r as int == clamped_index(idx, len as int),
        r < len,
{
    match idx {
        Some(i) => if i < len {
            i
        } else {
            len - 1
        },
        None => 0,
    }
}

} // verus!
