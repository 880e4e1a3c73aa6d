//! The streaming row-windowed blur engine.
//!
//! A `BlurWindow` blurs a rectangular region one row at a time, holding at
//! most `2 * radius + 1` source rows at once, so that the memory in use is
//! bounded by the radius and the region's width, never by its height. The
//! caller drives a push/pop handshake: while `push_ready` names a row, the
//! next unread source row is pushed; while `pop_ready` names a row, a
//! blurred row is popped and written back. Rows come out exactly once
//! each, top to bottom, and a row is only emitted once every source row it
//! depends on (up to `radius` rows below it, or the bottom edge) has been
//! pushed.

use vstd::prelude::*;

use crate::cache::DrawingCache;

verus! {

/// Sum of column `x` over a window of rows.
pub open spec fn col_sum(rows: Seq<Vec<u16>>, x: int) -> int
    decreases rows.len(),
{
    if rows.len() == 0 {
        0
    } else {
        rows[0]@[x] + col_sum(rows.drop_first(), x)
    }
}

/// Appending a row adds its entry to every column sum.
proof fn lemma_col_sum_push(rows: Seq<Vec<u16>>, row: Vec<u16>, x: int)
    ensures
        col_sum(rows.push(row), x) == col_sum(rows, x) + row@[x],
    decreases rows.len(),
{
    if rows.len() == 0 {
        assert(rows.push(row)[0] == row);
        assert(rows.push(row).drop_first() =~= Seq::<Vec<u16>>::empty());
        assert(col_sum(rows.push(row), x) == row@[x] + col_sum(Seq::<Vec<u16>>::empty(), x));
    } else {
        assert(rows.push(row)[0] == rows[0]);
        assert(rows.push(row).drop_first() =~= rows.drop_first().push(row));
        lemma_col_sum_push(rows.drop_first(), row, x);
        assert(col_sum(rows.push(row), x) == rows[0]@[x] + col_sum(
            rows.drop_first().push(row),
            x,
        ));
    }
}

/// Column sums lie between zero and the window size times the largest
/// 16-bit pixel.
proof fn lemma_col_sum_bounds(rows: Seq<Vec<u16>>, x: int)
    ensures
        0 <= col_sum(rows, x) <= rows.len() * 65535,
    decreases rows.len(),
{
    if rows.len() == 0 {
    } else {
        lemma_col_sum_bounds(rows.drop_first(), x);
        assert((rows.len() - 1) * 65535 == rows.len() * 65535 - 65535) by (nonlinear_arith);
    }
}

/// Sum of the column sums of columns `lo .. hi` over a window of rows.
pub open spec fn range_col_sum(rows: Seq<Vec<u16>>, lo: int, hi: int) -> int
    decreases hi - lo,
{
    if lo >= hi {
        0
    } else {
        col_sum(rows, lo) + range_col_sum(rows, lo + 1, hi)
    }
}

/// Extending the column range on the right adds that column's sum.
proof fn lemma_range_col_sum_extend(rows: Seq<Vec<u16>>, lo: int, hi: int)
    requires
        lo <= hi,
    ensures
        range_col_sum(rows, lo, hi + 1) == range_col_sum(rows, lo, hi) + col_sum(rows, hi),
    decreases hi - lo,
{
    if lo == hi {
        assert(range_col_sum(rows, hi + 1, hi + 1) == 0);
        assert(range_col_sum(rows, lo, hi + 1) == col_sum(rows, lo) + range_col_sum(
            rows,
            lo + 1,
            hi + 1,
        ));
    } else {
        lemma_range_col_sum_extend(rows, lo + 1, hi);
        assert(range_col_sum(rows, lo, hi + 1) == col_sum(rows, lo) + range_col_sum(
            rows,
            lo + 1,
            hi + 1,
        ));
        assert(range_col_sum(rows, lo, hi) == col_sum(rows, lo) + range_col_sum(rows, lo + 1, hi));
    }
}

/// Column sums only depend on what the rows hold.
proof fn lemma_col_sum_view_eq(a: Seq<Vec<u16>>, b: Seq<Vec<u16>>, x: int)
    requires
        a.len() == b.len(),
        forall|i: int| 0 <= i < a.len() ==> (#[trigger] a[i])@ == b[i]@,
    ensures
        col_sum(a, x) == col_sum(b, x),
    decreases a.len(),
{
    if a.len() == 0 {
    } else {
        assert(a.drop_first().len() == b.drop_first().len());
        assert forall|i: int| 0 <= i < a.drop_first().len() implies (#[trigger] a.drop_first()[i])@
            == b.drop_first()[i]@ by {
            assert(a.drop_first()[i] == a[i + 1]);
            assert(b.drop_first()[i] == b[i + 1]);
        }
        lemma_col_sum_view_eq(a.drop_first(), b.drop_first(), x);
    }
}

/// Ranged column sums only depend on what the rows hold.
proof fn lemma_range_col_sum_view_eq(a: Seq<Vec<u16>>, b: Seq<Vec<u16>>, lo: int, hi: int)
    requires
        a.len() == b.len(),
        forall|i: int| 0 <= i < a.len() ==> (#[trigger] a[i])@ == b[i]@,
    ensures
        range_col_sum(a, lo, hi) == range_col_sum(b, lo, hi),
    decreases hi - lo,
{
    if lo < hi {
        lemma_col_sum_view_eq(a, b, lo);
        lemma_range_col_sum_view_eq(a, b, lo + 1, hi);
    }
}

/// The blurred value of pixel `(x, y)` of a region given as source rows:
/// the average of the pixels within `radius` of it, the neighbourhood
/// clipped at the region's edges, clamped at the largest 16-bit value.
pub open spec fn spec_box_avg(src: Seq<Vec<u16>>, radius: int, width: int, x: int, y: int) -> int {
    let ylo = if y >= radius {
        y - radius
    } else {
        0
    };
    let yhi = if y + radius + 1 <= src.len() {
        y + radius + 1
    } else {
        src.len() as int
    };
    let xlo = if x >= radius {
        x - radius
    } else {
        0
    };
    let xhi = if x + radius + 1 <= width {
        x + radius + 1
    } else {
        width
    };
    let s = range_col_sum(src.subrange(ylo, yhi), xlo, xhi);
    let d = (yhi - ylo) * (xhi - xlo);
    if s / d > 65535 {
        65535
    } else {
        s / d
    }
}

/// Streaming blur state: a sliding window of source rows and the running
/// column sums over the window.
pub struct BlurWindow {
    width: usize,
    height: usize,
    radius: usize,
    window: Vec<Vec<u16>>,
    front: usize,
    totals: Vec<u32>,
    pushed: usize,
    popped: usize,
}

impl BlurWindow {
    pub closed spec fn spec_width(self) -> int {
        self.width as int
    }

    pub closed spec fn spec_height(self) -> int {
        self.height as int
    }

    pub closed spec fn spec_radius(self) -> int {
        self.radius as int
    }

    pub closed spec fn spec_pushed(self) -> int {
        self.pushed as int
    }

    pub closed spec fn spec_popped(self) -> int {
        self.popped as int
    }

    /// The source rows the window holds, oldest first.
    pub closed spec fn spec_window(self) -> Seq<Vec<u16>> {
        self.window@
    }

    /// Rows the window may hold at once.
    pub open spec fn spec_capacity(self) -> int {
        2 * self.spec_radius() + 1
    }

    /// The first source row still held.
    pub open spec fn spec_front(self) -> int {
        if self.spec_popped() >= self.spec_radius() {
            self.spec_popped() - self.spec_radius()
        } else {
            0
        }
    }

    /// Structural invariant of the handshake.
    pub closed spec fn wf(self) -> bool {
        &&& 1 <= self.width <= 32767
        &&& 1 <= self.radius <= 127
        &&& 1 <= self.height <= 32767
        &&& self.popped <= self.pushed <= self.height
        &&& self.front == self.spec_front()
        &&& self.window@.len() == self.pushed - self.front
        &&& self.window@.len() <= 2 * self.radius + 1
        &&& self.totals@.len() == self.width
        &&& forall|i: int|
            0 <= i < self.window@.len() ==> (#[trigger] self.window@[i])@.len() == self.width
        &&& forall|x: int|
            0 <= x < self.width ==> (#[trigger] self.totals@[x]) as int == col_sum(
                self.window@,
                x,
            )
    }

    /// A fresh window for a region `width` pixels wide and `height` rows
    /// high, blurred with the given radius.
    pub fn new(width: usize, height: usize, radius: usize) -> (w: BlurWindow)
        requires
            1 <= width <= 32767,
            1 <= height <= 32767,
            1 <= radius <= 127,
        ensures
            w.wf(),
            w.spec_width() == width,
            w.spec_height() == height,
            w.spec_radius() == radius,
            w.spec_pushed() == 0,
            w.spec_popped() == 0,
            w.spec_window().len() == 0,
    {
        let mut totals: Vec<u32> = Vec::new();
        let mut x: usize = 0;
        while x < width
            invariant
                x <= width,
                totals@.len() == x,
                forall|i: int| 0 <= i < x ==> (#[trigger] totals@[i]) == 0,
            decreases width - x,
        {
            totals.push(0);
            x = x + 1;
        }
        let w = BlurWindow {
            width,
            height,
            radius,
            window: Vec::new(),
            front: 0,
            totals,
            pushed: 0,
            popped: 0,
        };
        proof {
            assert forall|x2: int| 0 <= x2 < w.width implies (#[trigger] w.totals@[x2]) as int
                == col_sum(w.window@, x2) by {
                assert(col_sum(w.window@, x2) == 0);
            }
        }
        w
    }

    /// True when the engine can accept the next source row.
    pub open spec fn spec_push_ready(self) -> bool {
        self.spec_pushed() < self.spec_height() && self.spec_pushed() < self.spec_front()
            + self.spec_capacity()
    }

    /// True when the engine can emit the next blurred row.
    pub open spec fn spec_pop_ready(self) -> bool {
        self.spec_popped() < self.spec_height() && (self.spec_pushed() == self.spec_height()
            || self.spec_pushed() >= self.spec_popped() + self.spec_radius() + 1)
    }

    /// The index of the next source row to push, when one is accepted.
    pub fn push_ready(&self) -> (r: Option<usize>)
        requires
            self.wf(),
        ensures
            r.is_some() <==> self.spec_push_ready(),
            r.is_some() ==> r.unwrap() == self.spec_pushed(),
    {
        if self.pushed < self.height && self.window.len() < 2 * self.radius + 1 {
            Some(self.pushed)
        } else {
            None
        }
    }

    /// The index of the next blurred row to pop, when one is ready.
    pub fn pop_ready(&self) -> (r: Option<usize>)
        requires
            self.wf(),
        ensures
            r.is_some() <==> self.spec_pop_ready(),
            r.is_some() ==> r.unwrap() == self.spec_popped(),
    {
        if self.popped < self.height && (self.pushed == self.height || self.pushed >= self.popped
            + self.radius + 1) {
            Some(self.popped)
        } else {
            None
        }
    }

    /// Law: the handshake cannot deadlock. While rows remain to be
    /// emitted, the engine accepts a push or offers a pop.
    pub proof fn lemma_no_deadlock(self)
        requires
            self.wf(),
            self.spec_popped() < self.spec_height(),
        ensures
            self.spec_push_ready() || self.spec_pop_ready(),
    {
    }

    /// Law: the window never runs ahead of the reader by more than its
    /// capacity, and never behind it.
    pub proof fn lemma_window_bounds(self)
        requires
            self.wf(),
        ensures
            self.spec_popped() <= self.spec_pushed(),
            self.spec_pushed() <= self.spec_popped() + self.spec_capacity(),
            self.spec_pushed() <= self.spec_height(),
            1 <= self.spec_radius(),
    {
    }

    /// Accepts the next source row.
    pub fn push(&mut self, row: &Vec<u16>)
        requires
            old(self).wf(),
            old(self).spec_push_ready(),
            row@.len() == old(self).spec_width(),
        ensures
            final(self).wf(),
            final(self).spec_width() == old(self).spec_width(),
            final(self).spec_height() == old(self).spec_height(),
            final(self).spec_radius() == old(self).spec_radius(),
            final(self).spec_pushed() == old(self).spec_pushed() + 1,
            final(self).spec_popped() == old(self).spec_popped(),
            final(self).spec_window().len() == old(self).spec_window().len() + 1,
            forall|i: int|
                0 <= i < old(self).spec_window().len() ==> #[trigger] final(self).spec_window()[i]
                    == old(self).spec_window()[i],
            final(self).spec_window()[old(self).spec_window().len() as int]@ == row@,
    {
        let ghost pre = *self;
        let mut x: usize = 0;
        while x < self.width
            invariant
                self.width == pre.width,
                self.height == pre.height,
                self.radius == pre.radius,
                self.window == pre.window,
                self.front == pre.front,
                self.pushed == pre.pushed,
                self.popped == pre.popped,
                pre.wf(),
                row@.len() == pre.width,
                x <= self.width,
                self.totals@.len() == self.width,
                self.window@.len() <= 2 * self.radius,
                forall|i: int|
                    0 <= i < x ==> (#[trigger] self.totals@[i]) as int == col_sum(self.window@, i)
                        + row@[i],
                forall|i: int|
                    x <= i < self.width ==> (#[trigger] self.totals@[i]) as int == col_sum(
                        self.window@,
                        i,
                    ),
            decreases self.width - x,
        {
            proof {
                lemma_col_sum_bounds(self.window@, x as int);
                assert(self.window@.len() * 65535 <= 254 * 65535) by (nonlinear_arith)
                    requires
                        self.window@.len() <= 254,
                ;
            }
            let t: u32 = self.totals[x];
            let a: u32 = row[x] as u32;
            self.totals[x] = t + a;
            x = x + 1;
        }
        self.window.push(row.clone());
        self.pushed = self.pushed + 1;
        proof {
            assert(self.window@[self.window@.len() - 1]@ =~= row@);
            assert forall|i: int| 0 <= i < self.width implies (#[trigger] self.totals@[i]) as int
                == col_sum(self.window@, i) by {
                lemma_col_sum_push(pre.window@, self.window@[self.window@.len() - 1], i);
            }
        }
    }

    /// The value `pop` emits for column `x`: the average of the held rows
    /// over the columns within `radius` of `x`, clamped at the edges of
    /// the row and at the largest 16-bit value.
    pub open spec fn spec_pop_px(self, x: int) -> int {
        let lo = if x >= self.spec_radius() {
            x - self.spec_radius()
        } else {
            0
        };
        let hi = if x + self.spec_radius() + 1 <= self.spec_width() {
            x + self.spec_radius() + 1
        } else {
            self.spec_width()
        };
        let s = range_col_sum(self.spec_window(), lo, hi);
        let d = self.spec_window().len() * (hi - lo);
        if s / d > 65535 {
            65535
        } else {
            s / d
        }
    }

    /// Emits the next blurred row: the box average of the window around
    /// each column. Returns the index of the emitted row — always the next
    /// unemitted one, so rows come out in strictly increasing order — and
    /// the row's pixels.
    pub fn pop(&mut self) -> (out: (usize, Vec<u16>))
        requires
            old(self).wf(),
            old(self).spec_pop_ready(),
        ensures
            final(self).wf(),
            final(self).spec_width() == old(self).spec_width(),
            final(self).spec_height() == old(self).spec_height(),
            final(self).spec_radius() == old(self).spec_radius(),
            final(self).spec_pushed() == old(self).spec_pushed(),
            final(self).spec_popped() == old(self).spec_popped() + 1,
            out.0 == old(self).spec_popped(),
            out.1@.len() == old(self).spec_width(),
            forall|i: int|
                0 <= i < out.1@.len() ==> #[trigger] out.1@[i] == old(self).spec_pop_px(i),
            final(self).spec_window() == old(self).spec_window().skip(
                final(self).spec_front() - old(self).spec_front(),
            ),
    {
        let ghost pre = *self;
        let y: usize = self.popped;
        let wl: usize = self.window.len();
        let mut out: Vec<u16> = Vec::new();
        let mut x: usize = 0;
        while x < self.width
            invariant
                self.wf(),
                *self == pre,
                x <= self.width,
                wl == self.window@.len(),
                1 <= wl,
                out@.len() == x,
                forall|i: int| 0 <= i < x ==> #[trigger] out@[i] == pre.spec_pop_px(i),
            decreases self.width - x,
        {
            let lo: usize = if x >= self.radius {
                x - self.radius
            } else {
                0
            };
            let hi: usize = if x + self.radius + 1 <= self.width {
                x + self.radius + 1
            } else {
                self.width
            };
            let mut s: u64 = 0;
            let mut dx: usize = lo;
            while dx < hi
                invariant
                    self.wf(),
                    *self == pre,
                    lo <= dx <= hi <= self.width,
                    hi - lo <= 255,
                    s <= (dx - lo) * 16711425,
                    s == range_col_sum(self.window@, lo as int, dx as int),
                decreases hi - dx,
            {
                proof {
                    lemma_col_sum_bounds(self.window@, dx as int);
                    assert(self.window@.len() * 65535 <= 255 * 65535) by (nonlinear_arith)
                        requires
                            self.window@.len() <= 255,
                    ;
                    assert((dx - lo) * 16711425 <= 254 * 16711425 && (dx + 1 - lo) * 16711425 == (
                    dx - lo) * 16711425 + 16711425) by (nonlinear_arith)
                        requires
                            dx - lo <= 254,
                    ;
                    lemma_range_col_sum_extend(self.window@, lo as int, dx as int);
                }
                s = s + self.totals[dx] as u64;
                dx = dx + 1;
            }
            proof {
                assert(1 <= wl as u64 * ((hi - lo) as u64) <= 255 * 255) by (nonlinear_arith)
                    requires
                        1 <= wl <= 255,
                        1 <= hi - lo <= 255,
                ;
            }
            let divisor: u64 = (wl as u64) * ((hi - lo) as u64);
            let q: u64 = s / divisor;
            let v: u16 = if q > 65535 {
                65535
            } else {
                q as u16
            };
            out.push(v);
            x = x + 1;
        }
        self.popped = self.popped + 1;
        if self.popped >= self.radius + 1 && self.front < self.popped - self.radius {
            // The oldest row is no longer within reach of any future
            // output row: retire it from the window and the column sums.
            let gone: Vec<u16> = self.window.remove(0);
            let mut x2: usize = 0;
            while x2 < self.width
                invariant
                    self.width == pre.width,
                    self.height == pre.height,
                    self.radius == pre.radius,
                    self.front == pre.front,
                    self.pushed == pre.pushed,
                    self.popped == pre.popped + 1,
                    pre.wf(),
                    pre.window@.len() >= 1,
                    gone == pre.window@[0],
                    gone@.len() == self.width,
                    self.window@ == pre.window@.drop_first(),
                    x2 <= self.width,
                    self.totals@.len() == self.width,
                    forall|i: int|
                        0 <= i < x2 ==> (#[trigger] self.totals@[i]) as int == col_sum(
                            self.window@,
                            i,
                        ),
                    forall|i: int|
                        x2 <= i < self.width ==> (#[trigger] self.totals@[i]) as int == col_sum(
                            pre.window@,
                            i,
                        ),
                decreases self.width - x2,
            {
                proof {
                    lemma_col_sum_bounds(self.window@, x2 as int);
                    assert(col_sum(pre.window@, x2 as int) == gone@[x2 as int]
                        + col_sum(self.window@, x2 as int));
                }
                let t: u32 = self.totals[x2];
                let g: u32 = gone[x2] as u32;
                self.totals[x2] = t - g;
                x2 = x2 + 1;
            }
            self.front = self.front + 1;
        }
        (y, out)
    }
}

/// Law: driving the handshake over a whole region emits exactly one
/// blurred row per source row, in order, and every emitted pixel is the
/// clamped box average of its clipped neighbourhood in the source.
pub fn blur_region(window: &mut BlurWindow, src: &Vec<Vec<u16>>) -> (out: Vec<Vec<u16>>)
    requires
        old(window).wf(),
        old(window).spec_pushed() == 0,
        old(window).spec_popped() == 0,
        old(window).spec_window().len() == 0,
        src@.len() == old(window).spec_height(),
        forall|i: int|
            0 <= i < src@.len() ==> (#[trigger] src@[i])@.len() == old(window).spec_width(),
    ensures
        final(window).wf(),
        out@.len() == old(window).spec_height(),
        forall|i: int|
            0 <= i < out@.len() ==> (#[trigger] out@[i])@.len() == old(window).spec_width(),
        forall|y: int, x: int|
            0 <= y < out@.len() && 0 <= x < old(window).spec_width() ==> #[trigger] out@[y]@[x]
                == spec_box_avg(
                src@,
                old(window).spec_radius(),
                old(window).spec_width(),
                x,
                y,
            ),
{
    let ghost pre = *window;
    let mut out: Vec<Vec<u16>> = Vec::new();
    loop
        invariant
            window.wf(),
            window.spec_width() == pre.spec_width(),
            window.spec_height() == pre.spec_height(),
            window.spec_radius() == pre.spec_radius(),
            src@.len() == pre.spec_height(),
            forall|i: int|
                0 <= i < src@.len() ==> (#[trigger] src@[i])@.len() == pre.spec_width(),
            out@.len() == window.spec_popped(),
            forall|i: int|
                0 <= i < out@.len() ==> (#[trigger] out@[i])@.len() == pre.spec_width(),
            window.spec_window().len() == window.spec_pushed() - window.spec_front(),
            forall|i: int|
                0 <= i < window.spec_window().len() ==> (#[trigger] window.spec_window()[i])@
                    == src@[window.spec_front() + i]@,
            window.spec_pushed() < pre.spec_height() ==> window.spec_popped() == (
            if window.spec_pushed() >= pre.spec_radius() {
                window.spec_pushed() - pre.spec_radius()
            } else {
                0
            }),
            window.spec_pushed() == pre.spec_height() ==> window.spec_popped()
                >= pre.spec_height() - pre.spec_radius() - 1,
            forall|y: int, x: int|
                0 <= y < out@.len() && 0 <= x < pre.spec_width() ==> #[trigger] out@[y]@[x]
                    == spec_box_avg(src@, pre.spec_radius(), pre.spec_width(), x, y),
        ensures
            window.wf(),
            window.spec_popped() == pre.spec_height(),
            out@.len() == pre.spec_height(),
            forall|i: int|
                0 <= i < out@.len() ==> (#[trigger] out@[i])@.len() == pre.spec_width(),
            forall|y: int, x: int|
                0 <= y < out@.len() && 0 <= x < pre.spec_width() ==> #[trigger] out@[y]@[x]
                    == spec_box_avg(src@, pre.spec_radius(), pre.spec_width(), x, y),
        decreases 2 * window.spec_height() - window.spec_pushed() - window.spec_popped(),
    {
        let ghost w_top = *window;
        if let Some(y) = window.push_ready() {
            window.push(&src[y]);
            proof {
                assert forall|i: int| 0 <= i < window.spec_window().len() implies (
                #[trigger] window.spec_window()[i])@ == src@[window.spec_front() + i]@ by {
                    if i < w_top.spec_window().len() {
                        assert(window.spec_window()[i] == w_top.spec_window()[i]);
                    } else {
                        assert(window.spec_window()[i]@ == src@[y as int]@);
                    }
                }
            }
        }
        let ghost wp = *window;
        if let Some(_) = window.pop_ready() {
            let (y, row) = window.pop();
            proof {
                let r_ = pre.spec_radius();
                let h_ = pre.spec_height();
                let w_ = pre.spec_width();
                let ylo: int = if y as int >= r_ {
                    y as int - r_
                } else {
                    0
                };
                let yhi: int = if y as int + r_ + 1 <= h_ {
                    y as int + r_ + 1
                } else {
                    h_
                };
                // The window the pop read held exactly the source rows
                // `ylo .. yhi`.
                assert(wp.spec_front() == ylo);
                assert(wp.spec_pushed() == yhi);
                assert(wp.spec_window().len() == yhi - ylo);
                let sub = src@.subrange(ylo, yhi);
                assert forall|x: int| 0 <= x < w_ implies #[trigger] row@[x] == spec_box_avg(
                    src@,
                    r_,
                    w_,
                    x,
                    y as int,
                ) by {
                    let xlo: int = if x >= r_ {
                        x - r_
                    } else {
                        0
                    };
                    let xhi: int = if x + r_ + 1 <= w_ {
                        x + r_ + 1
                    } else {
                        w_
                    };
                    assert forall|i: int| 0 <= i < wp.spec_window().len() implies (
                    #[trigger] wp.spec_window()[i])@ == sub[i]@ by {
                        assert(sub[i] == src@[ylo + i]);
                    }
                    lemma_range_col_sum_view_eq(wp.spec_window(), sub, xlo, xhi);
                }
                // Re-establish the window correspondence after eviction.
                assert forall|i: int| 0 <= i < window.spec_window().len() implies (
                #[trigger] window.spec_window()[i])@ == src@[window.spec_front() + i]@ by {
                    let k = window.spec_front() - wp.spec_front();
                    assert(window.spec_window()[i] == wp.spec_window()[i + k]);
                }
            }
            out.push(row);
        }
        if out.len() == src.len() {
            break ;
        }
        proof {
            window.lemma_no_deadlock();
            window.lemma_window_bounds();
        }
    }
    out
}

/// Bytes of scratch the blur engine needs for a region of the given width:
/// the row window plus the column totals.
pub open spec fn spec_blur_scratch_bytes(width: int, radius: int) -> int {
    (2 * radius + 1) * width * 2 + width * 4
}

/// Acquires a blur window for a `width` by `height` region from the
/// cache's blur arena. Fails — leaving the cache unchanged — exactly when
/// the arena cannot supply the scratch bytes; this is a hard capacity
/// bound, and the caller must drop the draw rather than retry.
pub fn acquire_blur_window(
    cache: &mut DrawingCache,
    width: usize,
    height: usize,
    radius: usize,
) -> (r: Option<BlurWindow>)
    requires
        old(cache).wf(),
        1 <= width <= 32767,
        1 <= height <= 32767,
        1 <= radius <= 127,
    ensures
        final(cache).wf(),
        final(cache).spec_capacity_a() == old(cache).spec_capacity_a(),
        final(cache).spec_capacity_b() == old(cache).spec_capacity_b(),
        final(cache).spec_used_a() == old(cache).spec_used_a(),
        r.is_some() <==> old(cache).spec_used_b() + spec_blur_scratch_bytes(
            width as int,
            radius as int,
        ) <= old(cache).spec_capacity_b(),
        r.is_some() ==> {
            let w = r.unwrap();
            &&& w.wf()
            &&& w.spec_width() == width
            &&& w.spec_height() == height
            &&& w.spec_radius() == radius
            &&& w.spec_pushed() == 0
            &&& w.spec_popped() == 0
            &&& w.spec_window().len() == 0
            &&& final(cache).spec_used_b() == old(cache).spec_used_b()
                + spec_blur_scratch_bytes(width as int, radius as int)
        },
        !r.is_some() ==> *final(cache) == *old(cache),
{
    proof {
        assert((2 * radius + 1) * width * 2 + width * 4 <= 256 * 32767 * 2 + 32767
            * 4) by (nonlinear_arith)
            requires
                1 <= width <= 32767,
                1 <= radius <= 127,
        ;
        assert(0 <= (2 * radius + 1) * width * 2) by (nonlinear_arith)
            requires
                1 <= width,
                1 <= radius,
        ;
    }
    let bytes: usize = (2 * radius + 1) * width * 2 + width * 4;
    if cache.claim_blur(bytes) {
        Some(BlurWindow::new(width, height, radius))
    } else {
        None
    }
}

} // verus!
