//! The escape-time scan of the Mandelbrot set.
//!
//! The orbit of zero under `z -> z * z + c` is followed for a bounded number
//! of iterations. The pixel is coloured by the index of the iteration at
//! which the orbit first leaves the disc of radius two. As with the pendulum
//! the arithmetic on the orbit is the caller's; this module keeps count and
//! decides when the scan is over.
use vstd::prelude::*;
use crate::binary64::{units, Binary64};

verus! {

/// The escape-time fractal and its one parameter.
#[derive(Clone, Copy, Debug, PartialEq, Eq, Structural)]
pub struct Mandelbrot {
    /// The largest number of iterations followed for one pixel.
    pub max_iter: u32,
}

/// The progress of the scan of one pixel.
#[derive(Clone, Copy, Debug, PartialEq, Eq, Structural)]
pub struct EscapeScan {
    /// The largest number of iterations followed.
    pub max_iter: u32,
    /// The index of the iteration whose point is examined next.
    pub iteration: u32,
    /// The index of the iteration at which the orbit escaped; 0 while it has
    /// not, and so for an orbit that never does.
    pub escape_iteration: u32,
    /// The scan is over: the orbit has escaped or all iterations are used.
    pub done: bool,
}

impl Mandelbrot {
    /// The squared modulus lies outside the disc of radius two: it is a
    /// number above four.
    pub open spec fn outside(norm_sq: Binary64) -> bool {
        !norm_sq.nan() && norm_sq.value() > units(4)
    }

    /// The state of a scan before its first iteration.
    pub open spec fn fresh(self) -> EscapeScan {
        EscapeScan {
            max_iter: self.max_iter,
            iteration: 0,
            escape_iteration: 0,
            done: self.max_iter == 0,
        }
    }

    /// Whether a point with the squared modulus `norm_sq` has escaped.
    pub fn escaped(norm_sq: Binary64) -> (r: bool)
        ensures
            r == Mandelbrot::outside(norm_sq),
    {
        norm_sq.gt(Binary64::four())
    }

    /// Starts the scan of a pixel. With no iteration allowed it is over at
    /// once.
    pub fn scan(&self) -> (s: EscapeScan)
        ensures
            s == self.fresh(),
            s.wf(),
    {
        EscapeScan {
            max_iter: self.max_iter,
            iteration: 0,
            escape_iteration: 0,
            done: self.max_iter == 0,
        }
    }
}

impl EscapeScan {
    /// The scan is in a state that a run reaches: it is over exactly when
    /// the orbit has escaped or the iterations are used up, and an orbit
    /// that has not escaped has no escape iteration.
    pub open spec fn wf(self) -> bool {
        &&& self.iteration <= self.max_iter
        &&& self.escape_iteration <= self.iteration
        &&& !self.done ==> self.iteration < self.max_iter && self.escape_iteration == 0
        &&& self.done ==> self.iteration == self.max_iter || self.escape_iteration
            == self.iteration
    }

    /// The state after the point of the current iteration was examined and
    /// found to have the squared modulus `norm_sq`.
    pub open spec fn after(self, norm_sq: Binary64) -> EscapeScan {
        if Mandelbrot::outside(norm_sq) {
            EscapeScan {
                max_iter: self.max_iter,
                iteration: self.iteration,
                escape_iteration: self.iteration,
                done: true,
            }
        } else {
            EscapeScan {
                max_iter: self.max_iter,
                iteration: (self.iteration + 1) as u32,
                escape_iteration: 0,
                done: self.iteration + 1 == self.max_iter,
            }
        }
    }

    /// The number of reports that the scan can still take: none once it is
    /// over, otherwise one for each iteration left.
    pub open spec fn remaining(self) -> nat {
        if self.done {
            0
        } else {
            (self.max_iter - self.iteration) as nat
        }
    }

    /// Whether the scan is over.
    pub fn is_done(&self) -> (r: bool)
        ensures
            r == self.done,
    {
        self.done
    }

    /// The index of the iteration at which the orbit escaped, or 0.
    pub fn escape_iteration(&self) -> (i: u32)
        ensures
            i == self.escape_iteration,
    {
        self.escape_iteration
    }

    /// Reports the squared modulus of the point of the current iteration,
    /// and returns whether the orbit has escaped with it. If it has, the
    /// scan is over and the iteration is recorded; if not, the caller keeps
    /// the point and the scan moves to the next iteration, or is over when
    /// none is left.
    pub fn observe(&mut self, norm_sq: Binary64) -> (escaped: bool)
        requires
            old(self).wf(),
            !old(self).done,
        ensures
            escaped == Mandelbrot::outside(norm_sq),
            *final(self) == old(self).after(norm_sq),
            final(self).wf(),
            final(self).remaining() < old(self).remaining(),
    {
        if Mandelbrot::escaped(norm_sq) {
            self.escape_iteration = self.iteration;
            self.done = true;
            true
        } else {
            self.iteration = self.iteration + 1;
            self.done = self.iteration == self.max_iter;
            false
        }
    }
}

/// The scan after the squared moduli `seen` were reported, in their order.
pub open spec fn scanned(scan: EscapeScan, seen: Seq<Binary64>) -> EscapeScan
    decreases seen.len(),
{
    if seen.len() == 0 {
        scan
    } else {
        scanned(scan, seen.drop_last()).after(seen.last())
    }
}

/// Each of the squared moduli `seen` was reported while the scan was not
/// over.
pub open spec fn watched(scan: EscapeScan, seen: Seq<Binary64>) -> bool
    decreases seen.len(),
{
    seen.len() == 0 || (watched(scan, seen.drop_last()) && !scanned(scan, seen.drop_last()).done)
}

/// What a scan records: the orbit is followed for no more iterations than
/// allowed and no further than its first point outside the disc. If the
/// last point seen is outside, the scan is over and the escape iteration is
/// the index of that point; if not, the escape iteration is 0 and the scan is
/// over exactly when the iterations are used up.
pub proof fn lemma_scan_records_first_escape(m: Mandelbrot, seen: Seq<Binary64>)
    requires
        watched(m.fresh(), seen),
    ensures
        scanned(m.fresh(), seen).wf(),
        seen.len() <= m.max_iter,
        forall|i: int| 0 <= i < seen.len() - 1 ==> !Mandelbrot::outside(#[trigger] seen[i]),
        seen.len() > 0 && Mandelbrot::outside(seen.last()) ==> scanned(m.fresh(), seen).done
            && scanned(m.fresh(), seen).escape_iteration == seen.len() - 1,
        !(seen.len() > 0 && Mandelbrot::outside(seen.last())) ==> scanned(
            m.fresh(),
            seen,
        ).escape_iteration == 0 && scanned(m.fresh(), seen).iteration == seen.len() && scanned(
            m.fresh(),
            seen,
        ).done == (seen.len() == m.max_iter),
        scanned(m.fresh(), seen).max_iter == m.max_iter,
    decreases seen.len(),
{
    if seen.len() > 0 {
        let earlier = seen.drop_last();
        lemma_scan_records_first_escape(m, earlier);
        assert forall|i: int| 0 <= i < seen.len() - 1 implies !Mandelbrot::outside(
            #[trigger] seen[i],
        ) by {
            if i < earlier.len() - 1 {
                assert(seen[i] == earlier[i]);
            } else {
                assert(seen[i] == earlier.last());
            }
        }
    }
}

} // verus!
