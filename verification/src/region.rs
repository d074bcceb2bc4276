//! The invalidated-region accumulator.
//!
//! A region is an ordered list of non-empty pixel rectangles whose union is
//! the area awaiting repaint. Rectangles are added already snapped outward to
//! whole pixels; a paint cycle swaps the whole accumulator out at once, so
//! invalidations arriving during painting start a fresh cycle.

use vstd::prelude::*;
use crate::geom::{DpRect, PxRect, PxSize, Scale, snapped};

verus! {

/// An accumulated set of invalidated pixel rectangles, in arrival order.
#[derive(Clone, Debug)]
pub struct Region {
    pub rects: Vec<PxRect>,
}

/// What adding one snapped rectangle does to the accumulator: empty
/// rectangles are ignored, others are appended.
pub open spec fn spec_add(region: Seq<PxRect>, r: PxRect) -> Seq<PxRect> {
    if r.spec_is_empty() {
        region
    } else {
        region.push(r)
    }
}

/// The accumulator contents after a sequence of invalidation requests, each
/// snapped outward at scale `s`, lands on `region` in call order.
pub open spec fn spec_accumulate(region: Seq<PxRect>, reqs: Seq<DpRect>, s: Scale) -> Seq<PxRect>
    decreases reqs.len(),
{
    if reqs.len() == 0 {
        region
    } else {
        spec_add(spec_accumulate(region, reqs.drop_last(), s), snapped(reqs.last(), s))
    }
}

/// The region made of a sequence of invalidation requests alone.
pub open spec fn spec_snapped_region(reqs: Seq<DpRect>, s: Scale) -> Seq<PxRect> {
    spec_accumulate(Seq::empty(), reqs, s)
}

/// Whether some rectangle of the region covers the pixel at `(x, y)`.
pub open spec fn region_covers(region: Seq<PxRect>, x: int, y: int) -> bool {
    exists|i: int| 0 <= i < region.len() && #[trigger] region[i].covers(x, y)
}

impl Region {
    pub open spec fn view(&self) -> Seq<PxRect> {
        self.rects@
    }

    /// A region that covers nothing.
    pub fn empty() -> (r: Region)
        ensures
            r@ == Seq::<PxRect>::empty(),
    {
        Region { rects: Vec::new() }
    }

    pub fn is_empty(&self) -> (r: bool)
        ensures
            r == (self@.len() == 0),
    {
        self.rects.is_empty()
    }

    /// The accumulated rectangles, in the order they were added.
    pub fn rects(&self) -> (r: &Vec<PxRect>)
        ensures
            r@ == self@,
    {
        &self.rects
    }

    /// Unions one snapped rectangle into the region. Rectangles that cover no
    /// pixel are dropped.
    pub fn add_rect(&mut self, r: PxRect)
        ensures
            final(self)@ == spec_add(old(self)@, r),
    {
        if !r.is_empty() {
            self.rects.push(r);
        }
    }

    /// Swaps the accumulator out for an empty one and hands back what was
    /// accumulated, so a new paint cycle starts fresh.
    pub fn take(&mut self) -> (r: Region)
        ensures
            r@ == old(self)@,
            final(self)@ == Seq::<PxRect>::empty(),
    {
        let mut out = Region::empty();
        core::mem::swap(&mut out, self);
        out
    }

    /// The rectangles painting must clip to: the region's own rectangles, or
    /// the whole area when the region is empty (the defensive fallback for a
    /// forced repaint that invalidated nothing).
    pub fn clip_rects(&self, area: PxSize) -> (r: Vec<PxRect>)
        ensures
            self@.len() == 0 ==> r@ == seq![
                PxRect { x0: 0, y0: 0, x1: area.width, y1: area.height },
            ],
            self@.len() > 0 ==> r@ == self@,
    {
        if self.rects.is_empty() {
            let mut v: Vec<PxRect> = Vec::new();
            v.push(PxRect { x0: 0, y0: 0, x1: area.width, y1: area.height });
            proof {
                assert(v@ =~= seq![PxRect { x0: 0, y0: 0, x1: area.width, y1: area.height }]);
            }
            v
        } else {
            let mut v: Vec<PxRect> = Vec::new();
            let mut i: usize = 0;
            while i < self.rects.len()
                invariant
                    i <= self.rects.len(),
                    v@ == self@.take(i as int),
                decreases self.rects.len() - i,
            {
                v.push(self.rects[i]);
                proof {
                    assert(v@ =~= self@.take(i + 1 as int));
                }
                i = i + 1;
            }
            proof {
                assert(self@.take(self@.len() as int) =~= self@);
            }
            v
        }
    }
}

/// Landing a sequence of requests on a region only appends: the result is the
/// starting contents followed by the snapped region of the requests alone.
pub proof fn lemma_accumulate_appends(region: Seq<PxRect>, reqs: Seq<DpRect>, s: Scale)
    ensures
        spec_accumulate(region, reqs, s) == region + spec_snapped_region(reqs, s),
    decreases reqs.len(),
{
    if reqs.len() == 0 {
        assert(spec_accumulate(region, reqs, s) =~= region + spec_snapped_region(reqs, s));
    } else {
        lemma_accumulate_appends(region, reqs.drop_last(), s);
        lemma_accumulate_appends(Seq::empty(), reqs.drop_last(), s);
        assert(spec_accumulate(region, reqs, s) =~= region + spec_snapped_region(reqs, s));
    }
}

/// The region a paint cycle receives covers a pixel exactly when some
/// invalidation request of the cycle, snapped outward to whole pixels at the
/// then-current scale, covers it: the delivered region is the union of the
/// snapped requests.
pub proof fn lemma_delivered_region_is_union(reqs: Seq<DpRect>, s: Scale, x: int, y: int)
    ensures
        region_covers(spec_snapped_region(reqs, s), x, y) <==> exists|i: int|
            0 <= i < reqs.len() && #[trigger] snapped(reqs[i], s).covers(x, y),
    decreases reqs.len(),
{
    if reqs.len() == 0 {
    } else {
        let prefix = reqs.drop_last();
        lemma_delivered_region_is_union(prefix, s, x, y);
        let whole = spec_snapped_region(reqs, s);
        let head = spec_snapped_region(prefix, s);
        assert(whole == spec_add(head, snapped(reqs.last(), s)));
        if snapped(reqs.last(), s).covers(x, y) {
            assert(!snapped(reqs.last(), s).spec_is_empty());
            assert(whole[whole.len() - 1].covers(x, y));
            assert(region_covers(whole, x, y));
            assert(reqs[reqs.len() - 1] == reqs.last());
        }
        if region_covers(head, x, y) {
            let i = choose|i: int| 0 <= i < head.len() && #[trigger] head[i].covers(x, y);
            assert(whole[i].covers(x, y));
            assert(region_covers(whole, x, y));
        }
        if region_covers(whole, x, y) {
            let i = choose|i: int| 0 <= i < whole.len() && #[trigger] whole[i].covers(x, y);
            if i < head.len() {
                assert(head[i].covers(x, y));
                assert(region_covers(head, x, y));
            } else {
                assert(whole[i] == snapped(reqs.last(), s));
            }
        }
        if exists|i: int| 0 <= i < prefix.len() && #[trigger] snapped(prefix[i], s).covers(x, y) {
            let i = choose|i: int|
                0 <= i < prefix.len() && #[trigger] snapped(prefix[i], s).covers(x, y);
            assert(snapped(reqs[i], s).covers(x, y));
        }
        if exists|i: int| 0 <= i < reqs.len() - 1 && #[trigger] snapped(reqs[i], s).covers(x, y) {
            let i = choose|i: int|
                0 <= i < reqs.len() - 1 && #[trigger] snapped(reqs[i], s).covers(x, y);
            assert(snapped(prefix[i], s).covers(x, y));
        }
    }
}

} // verus!
