//! The progress bar's arithmetic.

use vstd::prelude::*;

verus! {

/// A bar in three colours: downloaded, cached, skipped, and what is left.
#[derive(Debug, Clone, Copy)]
pub struct MultiProgress {
    pub downloaded: usize,
    pub cached: usize,
    pub skipped: usize,
    pub total: usize,
    /// Whether the bar is shown full, the run being over.
    pub force_complete: bool,
}

/// The legend under the bar.
#[derive(Debug, Clone, Copy)]
pub struct StatusLegend;

/// The widths of the four segments of a bar, in cells.
#[derive(Debug, Clone, Copy)]
pub struct Segments {
    pub downloaded: usize,
    pub cached: usize,
    pub skipped: usize,
    pub empty: usize,
}

/// The cells a count takes of a bar of `width` cells that stands for
/// `whole`.
pub open spec fn share(count: nat, width: nat, whole: nat) -> nat {
    if whole == 0 {
        0
    } else {
        (count * width) / whole
    }
}

/// What is left of `width` once `used` is taken away, and nothing where more
/// is used than there is.
pub open spec fn remainder(width: nat, used: nat) -> nat {
    if used >= width {
        0
    } else {
        (width - used) as nat
    }
}

impl MultiProgress {
    pub fn new(downloaded: usize, cached: usize, skipped: usize, total: usize, force_complete: bool) -> (bar: Self)
        ensures
            bar.downloaded == downloaded,
            bar.cached == cached,
            bar.skipped == skipped,
            bar.total == total,
            bar.force_complete == force_complete,
    {
        MultiProgress { downloaded, cached, skipped, total, force_complete }
    }

    /// The number of files that the bar shows as done.
    pub open spec fn shown(self) -> nat {
        (self.downloaded + self.cached + self.skipped) as nat
    }

    /// The segments of a bar of `width` cells, where there is something to
    /// draw.
    ///
    /// A bar in progress gives each count its share of the total, rounded
    /// down, and leaves the rest empty. A complete bar shares the width
    /// among the three counts alone, gives what rounding left over to the
    /// downloaded segment, and leaves nothing empty; with nothing counted it
    /// is one downloaded segment.
    pub open spec fn spec_segments(self, width: nat) -> Option<Segments> {
        if width == 0 || self.total == 0 {
            None
        } else if self.force_complete {
            if self.shown() > 0 {
                let downloaded = share(self.downloaded as nat, width, self.shown());
                let cached = share(self.cached as nat, width, self.shown());
                let skipped = share(self.skipped as nat, width, self.shown());
                Some(
                    Segments {
                        downloaded: (downloaded + remainder(width, downloaded + cached + skipped)) as usize,
                        cached: cached as usize,
                        skipped: skipped as usize,
                        empty: 0,
                    },
                )
            } else {
                Some(Segments { downloaded: width as usize, cached: 0, skipped: 0, empty: 0 })
            }
        } else {
            let downloaded = share(self.downloaded as nat, width, self.total as nat);
            let cached = share(self.cached as nat, width, self.total as nat);
            let skipped = share(self.skipped as nat, width, self.total as nat);
            Some(
                Segments {
                    downloaded: downloaded as usize,
                    cached: cached as usize,
                    skipped: skipped as usize,
                    empty: remainder(width, downloaded + cached + skipped) as usize,
                },
            )
        }
    }

    /// The segments of a bar of `width` cells, or nothing where the bar is
    /// not drawn: with no width or no files.
    pub fn segments(&self, width: u16) -> (drawn: Option<Segments>)
        requires
            self.downloaded + self.cached + self.skipped <= usize::MAX,
            self.downloaded * width <= usize::MAX,
            self.cached * width <= usize::MAX,
            self.skipped * width <= usize::MAX,
            !self.force_complete ==> share(self.downloaded as nat, width as nat, self.total as nat)
                + share(self.cached as nat, width as nat, self.total as nat) + share(
                self.skipped as nat,
                width as nat,
                self.total as nat,
            ) <= usize::MAX,
        ensures
            drawn == self.spec_segments(width as nat),
            self.force_complete ==> (drawn matches Some(s) ==> s.downloaded + s.cached + s.skipped
                + s.empty == width),
    {
        let bar_width = width as usize;
        if bar_width == 0 || self.total == 0 {
            return None;
        }
        if self.force_complete {
            let shown = self.downloaded + self.cached + self.skipped;
            if shown > 0 {
                let downloaded = (self.downloaded * bar_width) / shown;
                let cached = (self.cached * bar_width) / shown;
                let skipped = (self.skipped * bar_width) / shown;
                proof {
                    lemma_shares_fit(
                        self.downloaded as nat,
                        self.cached as nat,
                        self.skipped as nat,
                        bar_width as nat,
                    );
                }
                let filled = downloaded + cached + skipped;
                let rest = bar_width - filled;
                Some(Segments { downloaded: downloaded + rest, cached, skipped, empty: 0 })
            } else {
                Some(Segments { downloaded: bar_width, cached: 0, skipped: 0, empty: 0 })
            }
        } else {
            let downloaded = (self.downloaded * bar_width) / self.total;
            let cached = (self.cached * bar_width) / self.total;
            let skipped = (self.skipped * bar_width) / self.total;
            let filled = downloaded + cached + skipped;
            let empty = if filled >= bar_width {
                0
            } else {
                bar_width - filled
            };
            Some(Segments { downloaded, cached, skipped, empty })
        }
    }
}

/// Three counts share a width among themselves without overdrawing it.
pub proof fn lemma_shares_fit(a: nat, b: nat, c: nat, width: nat)
    requires
        a + b + c > 0,
    ensures
        share(a, width, a + b + c) + share(b, width, a + b + c) + share(c, width, a + b + c)
            <= width,
{
    let whole = a + b + c;
    let x = (a * width) / whole;
    let y = (b * width) / whole;
    let z = (c * width) / whole;
    assert(x * whole <= a * width) by (nonlinear_arith)
        requires
            x == (a * width) / whole,
            whole > 0,
    ;
    assert(y * whole <= b * width) by (nonlinear_arith)
        requires
            y == (b * width) / whole,
            whole > 0,
    ;
    assert(z * whole <= c * width) by (nonlinear_arith)
        requires
            z == (c * width) / whole,
            whole > 0,
    ;
    assert((x + y + z) * whole <= width * whole) by (nonlinear_arith)
        requires
            x * whole <= a * width,
            y * whole <= b * width,
            z * whole <= c * width,
            whole == a + b + c,
    ;
    assert(x + y + z <= width) by (nonlinear_arith)
        requires
            (x + y + z) * whole <= width * whole,
            whole > 0,
    ;
}

} // verus!
