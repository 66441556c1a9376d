use vstd::prelude::*;

use crate::annotate::{annotate, annotated_spec, cell_index, lemma_cell_index_in_raster};
use crate::errors::TrackError;
use crate::grid::{
    grid_col, grid_row, lat_in_domain, lat_long_to_ascii_coords, lon_in_domain, GridPoint,
};
use crate::raster::{raster_len, raster_spec, render_raster};
use crate::style::{colorize_map, is_colorized_frame};
use crate::trail::{trail_step, TrailBuffer};

verus! {

/// The phases of one live map-viewing session.
#[derive(Clone, Copy, Debug, PartialEq, Eq, Structural)]
pub enum TrackPhase {
    /// Between refreshes: the loop may run another cycle, or observe
    /// cancellation at this boundary.
    Displaying,
    /// The user asked to leave. Terminal: no further refresh may run.
    Cancelled,
    /// A fatal render failure or an exhausted provider retry budget ended
    /// tracking. Terminal: no further refresh may run.
    Halted,
}

/// Whether a cell lies inside a raster of the given dimensions.
pub open spec fn point_in_bounds(p: GridPoint, width: int, height: int) -> bool {
    p.x < width && p.y < height
}

/// One live-tracking session: the only state that survives from one refresh
/// cycle to the next is the orbit trail; every frame is re-rendered from
/// source brightness data, annotated, and colorized. The session owns its
/// trail exclusively; cancellation and provider failures are reported to it
/// at cycle boundaries, never mid-cycle.
pub struct TrackingSession {
    trail: TrailBuffer,
    width: u32,
    height: u32,
    phase: TrackPhase,
    retries_left: u32,
}

impl TrackingSession {
    /// The recorded orbit trail, oldest cell first.
    pub closed spec fn trail_seq(&self) -> Seq<GridPoint> {
        self.trail@
    }

    /// Raster width of this session.
    pub closed spec fn spec_width(&self) -> u32 {
        self.width
    }

    /// Raster height of this session.
    pub closed spec fn spec_height(&self) -> u32 {
        self.height
    }

    /// The phase the session is in.
    pub closed spec fn spec_phase(&self) -> TrackPhase {
        self.phase
    }

    /// How many provider failures may still be skipped before halting.
    pub closed spec fn spec_retries(&self) -> u32 {
        self.retries_left
    }

    /// Session well-formedness: the trail obeys its bound, shares the
    /// session's width, and holds only cells inside the raster.
    pub closed spec fn inv(&self) -> bool {
        &&& self.trail.inv()
        &&& self.trail.spec_width() == self.width
        &&& self.width >= 2
        &&& self.height >= 1
        &&& forall|k: int|
            0 <= k < self.trail@.len() ==> point_in_bounds(
                #[trigger] self.trail@[k],
                self.width as int,
                self.height as int,
            )
    }

    /// Starts tracking from an already-known position: maps it, records it
    /// as the first trail cell, and produces the first frame, which shows
    /// the current-position marker alone over the rendered raster.
    pub fn start(
        width: u32,
        height: u32,
        retry_budget: u32,
        lat_milli: i64,
        lon_milli: i64,
        brightness: &Vec<u8>,
    ) -> (r: Result<(TrackingSession, String), TrackError>)
        requires
            width >= 2,
            height >= 1,
        ensures
            r is Ok <==> {
                &&& lat_in_domain(lat_milli as int)
                &&& lon_in_domain(lon_milli as int)
                &&& brightness@.len() == width * height
                &&& raster_len(width as int, height as int) <= usize::MAX
            },
            r matches Ok(pair) ==> ({
                let point = GridPoint {
                    x: grid_col(lon_milli as int, width as int) as u32,
                    y: grid_row(lat_milli as int, height as int) as u32,
                };
                &&& pair.0.inv()
                &&& pair.0.spec_phase() == TrackPhase::Displaying
                &&& pair.0.spec_width() == width
                &&& pair.0.spec_height() == height
                &&& pair.0.spec_retries() == retry_budget
                &&& pair.0.trail_seq() == seq![point]
                &&& is_colorized_frame(
                    pair.1@,
                    annotated_spec(
                        raster_spec(brightness@, width as int, height as int),
                        point,
                        Seq::<GridPoint>::empty(),
                        width as int,
                    ),
                )
            }),
            !(lat_in_domain(lat_milli as int) && lon_in_domain(lon_milli as int)) ==> (r matches Err(
                e,
            ) && e == TrackError::InvalidCoordinate),
            lat_in_domain(lat_milli as int) && lon_in_domain(lon_milli as int) && !(r is Ok)
                ==> (r matches Err(e) && e == TrackError::ImageLoadError),
    {
        let point = match lat_long_to_ascii_coords(lat_milli, lon_milli, width, height) {
            Ok(p) => p,
            Err(e) => {
                return Err(e);
            },
        };
        let mut image_ascii = match render_raster(brightness, width, height) {
            Ok(v) => v,
            Err(e) => {
                return Err(e);
            },
        };
        let mut trail = TrailBuffer::new(width);
        proof {
            lemma_cell_index_in_raster(point, width as int, height as int);
        }
        annotate(&mut image_ascii, point, trail.snapshot(), width);
        let frame = colorize_map(&image_ascii);
        trail.record(point);
        proof {
            assert(trail@ =~= seq![point]);
        }
        let session = TrackingSession {
            trail,
            width,
            height,
            phase: TrackPhase::Displaying,
            retries_left: retry_budget,
        };
        Ok((session, frame))
    }

    /// One refresh cycle from a fresh position fix: maps it, appends it to
    /// the trail, re-renders the raster, overlays the whole trail and then
    /// the current-position marker, colorizes, and finally applies the
    /// trail's eviction policy. The emitted frame therefore shows the trail
    /// as it stood with the new cell appended, before any eviction.
    ///
    /// An out-of-domain fix is rejected and the session is left untouched,
    /// so the caller may skip the cycle. A render failure halts tracking.
    pub fn refresh(&mut self, lat_milli: i64, lon_milli: i64, brightness: &Vec<u8>) -> (r: Result<
        String,
        TrackError,
    >)
        requires
            old(self).inv(),
            old(self).spec_phase() == TrackPhase::Displaying,
        ensures
            final(self).inv(),
            final(self).spec_width() == old(self).spec_width(),
            final(self).spec_height() == old(self).spec_height(),
            final(self).spec_retries() == old(self).spec_retries(),
            r is Ok <==> {
                &&& lat_in_domain(lat_milli as int)
                &&& lon_in_domain(lon_milli as int)
                &&& brightness@.len() == old(self).spec_width() * old(self).spec_height()
                &&& raster_len(
                    old(self).spec_width() as int,
                    old(self).spec_height() as int,
                ) <= usize::MAX
            },
            r matches Ok(frame) ==> ({
                let point = GridPoint {
                    x: grid_col(lon_milli as int, old(self).spec_width() as int) as u32,
                    y: grid_row(lat_milli as int, old(self).spec_height() as int) as u32,
                };
                &&& final(self).spec_phase() == TrackPhase::Displaying
                &&& final(self).trail_seq() == trail_step(
                    old(self).trail_seq(),
                    point,
                    old(self).spec_width() as int,
                )
                &&& is_colorized_frame(
                    frame@,
                    annotated_spec(
                        raster_spec(
                            brightness@,
                            old(self).spec_width() as int,
                            old(self).spec_height() as int,
                        ),
                        point,
                        old(self).trail_seq().push(point),
                        old(self).spec_width() as int,
                    ),
                )
            }),
            !(lat_in_domain(lat_milli as int) && lon_in_domain(lon_milli as int)) ==> {
                &&& r matches Err(e) && e == TrackError::InvalidCoordinate
                &&& final(self).spec_phase() == TrackPhase::Displaying
                &&& final(self).trail_seq() == old(self).trail_seq()
            },
            lat_in_domain(lat_milli as int) && lon_in_domain(lon_milli as int) && !(r is Ok) ==> {
                &&& r matches Err(e) && e == TrackError::ImageLoadError
                &&& final(self).spec_phase() == TrackPhase::Halted
                &&& final(self).trail_seq() == old(self).trail_seq()
            },
    {
        let width = self.width;
        let height = self.height;
        let point = match lat_long_to_ascii_coords(lat_milli, lon_milli, width, height) {
            Ok(p) => p,
            Err(e) => {
                return Err(e);
            },
        };
        let mut image_ascii = match render_raster(brightness, width, height) {
            Ok(v) => v,
            Err(e) => {
                self.phase = TrackPhase::Halted;
                return Err(e);
            },
        };
        self.trail.append(point);
        proof {
            lemma_cell_index_in_raster(point, width as int, height as int);
            assert forall|k: int| 0 <= k < self.trail@.len() implies cell_index(
                #[trigger] self.trail@[k],
                width as int,
            ) < image_ascii@.len() by {
                lemma_cell_index_in_raster(self.trail@[k], width as int, height as int);
            }
        }
        annotate(&mut image_ascii, point, self.trail.snapshot(), width);
        let frame = colorize_map(&image_ascii);
        self.trail.maybe_evict();
        proof {
            assert forall|k: int| 0 <= k < self.trail@.len() implies point_in_bounds(
                #[trigger] self.trail@[k],
                width as int,
                height as int,
            ) by {
                let pre_evict = old(self).trail@.push(point);
                if pre_evict.len() > 2 * width {
                    assert(self.trail@[k] == pre_evict[k + width as int / 2]);
                }
            }
        }
        Ok(frame)
    }

    /// Reports one provider failure at a cycle boundary. While the retry
    /// budget lasts, the cycle is skipped (the previous frame stays on
    /// screen) and `true` asks the caller to keep going; once the budget is
    /// exhausted the session halts and `false` tells the caller to stop.
    pub fn provider_failed(&mut self) -> (retry: bool)
        requires
            old(self).inv(),
            old(self).spec_phase() == TrackPhase::Displaying,
        ensures
            final(self).inv(),
            final(self).trail_seq() == old(self).trail_seq(),
            final(self).spec_width() == old(self).spec_width(),
            final(self).spec_height() == old(self).spec_height(),
            old(self).spec_retries() == 0 ==> {
                &&& !retry
                &&& final(self).spec_phase() == TrackPhase::Halted
                &&& final(self).spec_retries() == 0
            },
            old(self).spec_retries() > 0 ==> {
                &&& retry
                &&& final(self).spec_phase() == TrackPhase::Displaying
                &&& final(self).spec_retries() == old(self).spec_retries() - 1
            },
    {
        if self.retries_left == 0 {
            self.phase = TrackPhase::Halted;
            false
        } else {
            self.retries_left = self.retries_left - 1;
            true
        }
    }

    /// Observes the user's cancellation signal at a cycle boundary: the
    /// session becomes terminal and schedules nothing further. The cycle
    /// already dispatched is never aborted mid-flight; this is only ever
    /// called between cycles.
    pub fn cancel(&mut self)
        ensures
            final(self).spec_phase() == TrackPhase::Cancelled,
            final(self).trail_seq() == old(self).trail_seq(),
            final(self).spec_width() == old(self).spec_width(),
            final(self).spec_height() == old(self).spec_height(),
            final(self).spec_retries() == old(self).spec_retries(),
            old(self).inv() ==> final(self).inv(),
    {
        self.phase = TrackPhase::Cancelled;
    }

    /// Whether the loop may schedule another refresh: only in the
    /// `Displaying` phase; after cancellation or a halt this stays false
    /// forever, so a caller that checks it at every cycle boundary runs at
    /// most the cycle already dispatched.
    pub fn is_active(&self) -> (r: bool)
        ensures
            r == (self.spec_phase() == TrackPhase::Displaying),
    {
        match self.phase {
            TrackPhase::Displaying => true,
            TrackPhase::Cancelled => false,
            TrackPhase::Halted => false,
        }
    }

    /// Whether tracking ended on a fatal error rather than by cancellation.
    pub fn is_halted(&self) -> (r: bool)
        ensures
            r == (self.spec_phase() == TrackPhase::Halted),
    {
        match self.phase {
            TrackPhase::Displaying => false,
            TrackPhase::Cancelled => false,
            TrackPhase::Halted => true,
        }
    }

    /// The recorded orbit trail, oldest cell first.
    pub fn trail_points(&self) -> (r: &Vec<GridPoint>)
        ensures
            r@ == self.trail_seq(),
    {
        self.trail.snapshot()
    }

    /// The remaining provider retry budget.
    pub fn retries_left(&self) -> (r: u32)
        ensures
            r == self.spec_retries(),
    {
        self.retries_left
    }
}

} // verus!
