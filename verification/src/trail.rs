use vstd::prelude::*;

use crate::grid::GridPoint;

verus! {

/// One recording step of the trail policy: push the new point, and if the
/// length then exceeds `2 * width`, drop the oldest `width / 2` entries in a
/// single batch.
pub open spec fn trail_step(s: Seq<GridPoint>, p: GridPoint, width: int) -> Seq<GridPoint> {
    let grown = s.push(p);
    if grown.len() > 2 * width {
        grown.subrange(width / 2, grown.len() as int)
    } else {
        grown
    }
}

/// A whole run of the policy, recording the given points in order from the
/// given starting history.
pub open spec fn trail_run(s: Seq<GridPoint>, points: Seq<GridPoint>, width: int) -> Seq<
    GridPoint,
>
    decreases points.len(),
{
    if points.len() == 0 {
        s
    } else {
        trail_run(trail_step(s, points[0], width), points.drop_first(), width)
    }
}

/// Bounded, insertion-ordered history of recently visited grid cells. The
/// eviction threshold is `2 * width` and each eviction drops the oldest
/// `width / 2` entries at once, so the length stays bounded while the cost of
/// trimming is amortized over many recordings. Cells are kept verbatim: a
/// revisited cell appears once per visit.
pub struct TrailBuffer {
    points: Vec<GridPoint>,
    width: u32,
}

impl TrailBuffer {
    /// The recorded history, oldest first.
    pub closed spec fn view(&self) -> Seq<GridPoint> {
        self.points@
    }

    /// The raster width the eviction threshold is derived from.
    pub closed spec fn spec_width(&self) -> u32 {
        self.width
    }

    /// Well-formedness: the bound is meaningful (an eviction batch of
    /// `width / 2` entries is nonempty) and the history respects it.
    pub open spec fn inv(&self) -> bool {
        &&& self.spec_width() >= 2
        &&& self@.len() <= 2 * self.spec_width()
    }

    /// An empty trail for a raster of the given width. Width must be at least
    /// 2 so that each eviction removes at least one entry.
    pub fn new(width: u32) -> (r: TrailBuffer)
        requires
            width >= 2,
        ensures
            r@ == Seq::<GridPoint>::empty(),
            r.spec_width() == width,
            r.inv(),
    {
        let r = TrailBuffer { points: Vec::new(), width };
        proof {
            assert(r@ =~= Seq::<GridPoint>::empty());
        }
        r
    }

    /// Appends one observation at the end of the history.
    pub fn append(&mut self, p: GridPoint)
        ensures
            final(self)@ == old(self)@.push(p),
            final(self).spec_width() == old(self).spec_width(),
    {
        self.points.push(p);
    }

    /// Drops the oldest `width / 2` entries in one batch if the history has
    /// outgrown `2 * width`; otherwise leaves it unchanged.
    pub fn maybe_evict(&mut self)
        ensures
            final(self)@ == (if old(self)@.len() > 2 * old(self).spec_width() {
                old(self)@.subrange(old(self).spec_width() as int / 2, old(self)@.len() as int)
            } else {
                old(self)@
            }),
            final(self).spec_width() == old(self).spec_width(),
    {
        let len = self.points.len();
        if len as u64 > 2 * (self.width as u64) {
            let start = (self.width / 2) as usize;
            let mut kept: Vec<GridPoint> = Vec::new();
            let mut i: usize = start;
            while i < len
                invariant
                    start <= i <= len,
                    len == self.points.len(),
                    kept@ == self.points@.subrange(start as int, i as int),
                decreases len - i,
            {
                kept.push(self.points[i]);
                proof {
                    assert(kept@ =~= self.points@.subrange(start as int, i + 1));
                }
                i = i + 1;
            }
            self.points = kept;
        }
    }

    /// Records one observation: append, then apply the eviction policy. The
    /// result is exactly one `trail_step` of the previous history.
    pub fn record(&mut self, p: GridPoint)
        requires
            old(self).inv(),
        ensures
            final(self)@ == trail_step(old(self)@, p, old(self).spec_width() as int),
            final(self).spec_width() == old(self).spec_width(),
            final(self).inv(),
    {
        self.append(p);
        self.maybe_evict();
    }

    /// The history in chronological order, for rendering the orbit trail.
    pub fn snapshot(&self) -> (r: &Vec<GridPoint>)
        ensures
            r@ == self@,
    {
        &self.points
    }

    /// The number of recorded cells.
    pub fn len(&self) -> (r: usize)
        ensures
            r == self@.len(),
    {
        self.points.len()
    }
}

/// First half of the eviction law: as long as the history stays at or under
/// the `2 * width` threshold, recording evicts nothing — every recorded cell
/// is still there, in chronological order.
pub proof fn lemma_trail_run_no_eviction(s: Seq<GridPoint>, points: Seq<GridPoint>, width: int)
    requires
        width >= 2,
        s.len() + points.len() <= 2 * width,
    ensures
        trail_run(s, points, width) == s + points,
    decreases points.len(),
{
    if points.len() == 0 {
        assert(trail_run(s, points, width) =~= s + points);
    } else {
        assert(trail_step(s, points[0], width) == s.push(points[0]));
        lemma_trail_run_no_eviction(s.push(points[0]), points.drop_first(), width);
        assert(s.push(points[0]) + points.drop_first() =~= s + points);
    }
}

/// Helper for the eviction law: a run that overshoots the threshold by
/// exactly one recording evicts once, in the final step.
proof fn lemma_trail_run_one_eviction(s: Seq<GridPoint>, points: Seq<GridPoint>, width: int)
    requires
        width >= 2,
        points.len() >= 1,
        s.len() + points.len() == 2 * width + 1,
    ensures
        trail_run(s, points, width) == (s + points).subrange(width / 2, 2 * width + 1),
    decreases points.len(),
{
    if points.len() == 1 {
        assert(s.push(points[0]).len() == 2 * width + 1);
        assert(trail_step(s, points[0], width) == s.push(points[0]).subrange(
            width / 2,
            2 * width + 1,
        ));
        assert(points.drop_first().len() == 0);
        assert(trail_run(trail_step(s, points[0], width), points.drop_first(), width)
            == trail_step(s, points[0], width));
        assert(s.push(points[0]) =~= s + points);
    } else {
        assert(s.len() + 1 <= 2 * width);
        assert(trail_step(s, points[0], width) == s.push(points[0]));
        lemma_trail_run_one_eviction(s.push(points[0]), points.drop_first(), width);
        assert(s.push(points[0]) + points.drop_first() =~= s + points);
    }
}

/// The eviction law: recording `2 * width + 1` points into a fresh trail
/// triggers exactly one batch eviction, which removes the `width / 2` oldest
/// entries and nothing else; the survivors keep their chronological order and
/// the final length is `(2 * width + 1) - width / 2`.
pub proof fn lemma_trail_bulk_eviction(points: Seq<GridPoint>, width: int)
    requires
        width >= 2,
        points.len() == 2 * width + 1,
    ensures
        trail_run(Seq::<GridPoint>::empty(), points, width) == points.subrange(
            width / 2,
            2 * width + 1,
        ),
        trail_run(Seq::<GridPoint>::empty(), points, width).len() == 2 * width + 1 - width / 2,
{
    lemma_trail_run_one_eviction(Seq::<GridPoint>::empty(), points, width);
    assert(Seq::<GridPoint>::empty() + points =~= points);
}

} // verus!
