//! The double-buffered cell grid and its differ.
//!
//! `current` holds what the emulator has drawn; `previous` holds what was
//! last handed to the renderer. Both are flat, row-major, of length
//! `width * height`. `diff` reports the cells where the two disagree and
//! snapshots `previous := current`.

use vstd::prelude::*;

use crate::cell::Cell;
use crate::cell::default_cell;
use crate::layout::Rect;

verus! {

/// The dimensions a grid can be built over: a non-empty rectangle whose cell
/// count and whose host-screen coordinates stay within `usize`.
pub open spec fn rect_wf(rect: Rect) -> bool {
    &&& rect.width >= 1
    &&& rect.height >= 1
    &&& rect.width * rect.height <= usize::MAX
    &&& rect.x + rect.width <= usize::MAX
    &&& rect.y + rect.height <= usize::MAX
}

/// The rectangular array of styled cells representing the virtual screen,
/// double-buffered for differencing.
pub struct Buffer {
    pub current: Vec<Cell>,
    pub previous: Vec<Cell>,
    pub rect: Rect,
}

/// The changed-cell report for the first `n` grid indices: one triple
/// `(screen_x, screen_y, cell)` for every `i < n` where `cur[i] != prev[i]`,
/// in index (row-major) order, and nothing else.
pub open spec fn diff_upto(prev: Seq<Cell>, cur: Seq<Cell>, rect: Rect, n: int) -> Seq<
    (usize, usize, Cell),
>
    decreases n,
{
    if n <= 0 {
        Seq::empty()
    } else {
        let t = diff_upto(prev, cur, rect, n - 1);
        if cur[n - 1] != prev[n - 1] {
            t.push(
                (
                    ((n - 1) % (rect.width as int) + rect.x) as usize,
                    ((n - 1) / (rect.width as int) + rect.y) as usize,
                    cur[n - 1],
                ),
            )
        } else {
            t
        }
    }
}

/// The changed-cell report over the whole grid.
pub open spec fn spec_diff(prev: Seq<Cell>, cur: Seq<Cell>, rect: Rect) -> Seq<
    (usize, usize, Cell),
> {
    diff_upto(prev, cur, rect, cur.len() as int)
}

/// The number of grid indices below `n` whose two buffers disagree.
pub open spec fn count_changed(prev: Seq<Cell>, cur: Seq<Cell>, n: int) -> int
    decreases n,
{
    if n <= 0 {
        0
    } else {
        count_changed(prev, cur, n - 1) + if cur[n - 1] != prev[n - 1] {
            1int
        } else {
            0int
        }
    }
}

/// The grid index a report entry speaks of, recovered from its screen
/// coordinates.
pub open spec fn entry_index(e: (usize, usize, Cell), rect: Rect) -> int {
    (e.1 - rect.y) * (rect.width as int) + (e.0 - rect.x)
}

/// The differ yields one entry per changed cell and none for an unchanged
/// cell: every entry carries the coordinates and current cell of a
/// disagreeing grid index, the entries' indices strictly increase (so no
/// index is reported twice), and their number is the number of
/// disagreeing indices.
pub proof fn lemma_diff_entries(prev: Seq<Cell>, cur: Seq<Cell>, rect: Rect, n: int)
    requires
        rect_wf(rect),
        n <= rect.width * rect.height,
    ensures
        diff_upto(prev, cur, rect, n).len() == count_changed(prev, cur, n),
        forall|k: int|
            0 <= k < diff_upto(prev, cur, rect, n).len() ==> {
                let i = entry_index(#[trigger] diff_upto(prev, cur, rect, n)[k], rect);
                0 <= i < n && cur[i] != prev[i] && diff_upto(prev, cur, rect, n)[k] == (
                    ((i % (rect.width as int)) + rect.x) as usize,
                    ((i / (rect.width as int)) + rect.y) as usize,
                    cur[i],
                )
            },
        forall|k1: int, k2: int|
            0 <= k1 < k2 < diff_upto(prev, cur, rect, n).len() ==> entry_index(
                #[trigger] diff_upto(prev, cur, rect, n)[k1],
                rect,
            ) < entry_index(#[trigger] diff_upto(prev, cur, rect, n)[k2], rect),
    decreases n,
{
    let w = rect.width as int;
    if n > 0 {
        lemma_diff_entries(prev, cur, rect, n - 1);
        let t = diff_upto(prev, cur, rect, n - 1);
        let d = diff_upto(prev, cur, rect, n);
        if cur[n - 1] != prev[n - 1] {
            let e = (
                (((n - 1) % w) + rect.x) as usize,
                (((n - 1) / w) + rect.y) as usize,
                cur[n - 1],
            );
            assert(d[d.len() - 1] == e);
            assert(entry_index(e, rect) == n - 1) by {
                assert((n - 1) / w < rect.height as int) by (nonlinear_arith)
                    requires
                        0 <= n - 1,
                        n <= w * (rect.height as int),
                        w >= 1,
                ;
                assert(e.1 - rect.y == (n - 1) / w);
                assert(e.0 - rect.x == (n - 1) % w);
                assert((n - 1) == w * ((n - 1) / w) + (n - 1) % w) by (nonlinear_arith)
                    requires
                        w >= 1,
                ;
                assert(((n - 1) / w) * w == w * ((n - 1) / w)) by (nonlinear_arith);
            }
            assert forall|k: int| 0 <= k < d.len() implies {
                let i = entry_index(#[trigger] d[k], rect);
                0 <= i < n && cur[i] != prev[i] && d[k] == (
                    ((i % w) + rect.x) as usize,
                    ((i / w) + rect.y) as usize,
                    cur[i],
                )
            } by {
                if k < t.len() {
                    assert(d[k] == t[k]);
                }
            }
            assert forall|k1: int, k2: int|
                0 <= k1 < k2 < d.len() implies entry_index(#[trigger] d[k1], rect) < entry_index(
                #[trigger] d[k2],
                rect,
            ) by {
                if k2 < t.len() {
                    assert(d[k1] == t[k1] && d[k2] == t[k2]);
                } else {
                    assert(d[k1] == t[k1]);
                    assert(entry_index(d[k1], rect) < n - 1);
                }
            }
        }
    }
}

/// A grid whose two buffers agree produces an empty report: the second of
/// two back-to-back diffs with no mutation in between yields nothing.
pub proof fn lemma_diff_no_change(prev: Seq<Cell>, cur: Seq<Cell>, rect: Rect, n: int)
    requires
        forall|i: int| 0 <= i < n ==> cur[i] == prev[i],
    ensures
        diff_upto(prev, cur, rect, n).len() == 0,
    decreases n,
{
    if n > 0 {
        lemma_diff_no_change(prev, cur, rect, n - 1);
    }
}

/// A vector of `n` default cells.
fn filled_default(n: usize) -> (r: Vec<Cell>)
    ensures
        r@.len() == n,
        forall|i: int| 0 <= i < n ==> r@[i] == default_cell(),
{
    let mut r: Vec<Cell> = Vec::new();
    let mut i: usize = 0;
    while i < n
        invariant
            i <= n,
            r@.len() == i,
            forall|j: int| 0 <= j < i ==> r@[j] == default_cell(),
        decreases n - i,
    {
        r.push(Cell::default());
        i = i + 1;
    }
    r
}

impl Buffer {
    /// Both buffers allocated and of the right length for the rectangle.
    pub open spec fn wf(&self) -> bool {
        &&& rect_wf(self.rect)
        &&& self.current@.len() == self.rect.width * self.rect.height
        &&& self.previous@.len() == self.current@.len()
    }

    /// Allocates both buffers filled with the default cell.
    pub fn new(rect: Rect) -> (r: Buffer)
        requires
            rect_wf(rect),
        ensures
            r.wf(),
            r.rect == rect,
            forall|i: int| 0 <= i < r.current@.len() ==> r.current@[i] == default_cell(),
            r.previous@ == r.current@,
    {
        let n = rect.width * rect.height;
        let current = filled_default(n);
        let previous = filled_default(n);
        proof {
            assert(current@ =~= previous@);
        }
        Buffer { current, previous, rect }
    }

    /// Reports every cell that changed since the last report, as
    /// `(screen_x, screen_y, cell)` triples in row-major order, and snapshots
    /// `previous := current` so the next report is relative to this one.
    pub fn diff(&mut self) -> (r: Vec<(usize, usize, Cell)>)
        requires
            old(self).wf(),
        ensures
            final(self).wf(),
            final(self).rect == old(self).rect,
            final(self).current@ == old(self).current@,
            final(self).previous@ == old(self).current@,
            r@ == spec_diff(old(self).previous@, old(self).current@, old(self).rect),
    {
        let ghost old_prev = self.previous@;
        let ghost cur = self.current@;
        let mut r: Vec<(usize, usize, Cell)> = Vec::new();
        let w = self.rect.width;
        let n = self.current.len();
        let mut i: usize = 0;
        while i < n
            invariant
                i <= n,
                w == self.rect.width,
                self.rect == old(self).rect,
                self.wf(),
                n == self.current@.len(),
                self.current@ == cur,
                self.previous@.len() == n,
                forall|j: int| 0 <= j < i ==> self.previous@[j] == cur[j],
                forall|j: int| i <= j < n ==> self.previous@[j] == old_prev[j],
                r@ == diff_upto(old_prev, cur, self.rect, i as int),
            decreases n - i,
        {
            if self.current[i] != self.previous[i] {
                proof {
                    let hh = self.rect.height as int;
                    let ww = w as int;
                    let ii = i as int;
                    assert(ii / ww < hh) by (nonlinear_arith)
                        requires
                            ii < ww * hh,
                            ww >= 1,
                            ii >= 0,
                    ;
                }
                let sx = i % w + self.rect.x;
                let sy = i / w + self.rect.y;
                r.push((sx, sy, self.current[i]));
                let c = self.current[i];
                self.previous[i] = c;
            }
            i = i + 1;
        }
        proof {
            assert(self.previous@ =~= cur);
        }
        r
    }
}

} // verus!
