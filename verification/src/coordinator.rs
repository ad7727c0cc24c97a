//! The deferred-initialization event coordinator.
//!
//! The graphics context is constructed asynchronously, so windowing events
//! can arrive while it does not exist yet. The coordinator owns the
//! construction phase, the missed-resize record, and (once construction
//! completed) the context's size-tracking substate, and turns each
//! incoming event into a decision the caller acts on: start a
//! construction, request a redraw, reconfigure the surface, draw or skip.
//! The event thread is never blocked: while the context is absent, intent
//! is only recorded and deferred.

use vstd::prelude::*;
use crate::geometry::{
    degenerate, fresh_geometry, record_resize, Extent, FramePlan, SurfaceGeometry,
};

verus! {

/// Construction phase of the graphics context.
#[derive(Clone, Copy, PartialEq, Eq, Structural, Debug)]
pub enum Phase {
    /// No construction has been started.
    Uninitialized,
    /// A construction has been started and has not completed.
    Constructing,
    /// The context exists.
    Ready,
}

/// One event delivered to the coordinator.
#[derive(Clone, Copy, PartialEq, Eq, Structural, Debug)]
pub enum CoordEvent {
    /// The windowing system's resume/activation signal.
    Activation,
    /// A window-resize notification carrying the new size.
    Resize(Extent),
    /// The asynchronous construction finished; the surface was configured
    /// for the carried initial size.
    ConstructionComplete(Extent),
    /// The windowing system asked for a redraw.
    Redraw,
}

/// Coordinator state.
#[derive(Clone, Copy, PartialEq, Eq, Structural, Debug)]
pub struct Coordinator {
    /// Where construction stands.
    pub phase: Phase,
    /// The latest non-degenerate resize seen while the context was
    /// absent, if any; never a queue, never degenerate.
    pub missed_resize: Option<Extent>,
    /// The context's size-tracking substate; present exactly when Ready.
    pub geometry: Option<SurfaceGeometry>,
    /// How many constructions were ever started (saturating).
    pub construction_starts: u32,
}

/// The state every coordinator begins in.
pub open spec fn initial_coordinator() -> Coordinator {
    Coordinator {
        phase: Phase::Uninitialized,
        missed_resize: None,
        geometry: None,
        construction_starts: 0,
    }
}

/// Saturating counter increment.
pub open spec fn bump(n: u32) -> u32 {
    if n == u32::MAX {
        u32::MAX
    } else {
        (n + 1) as u32
    }
}

/// What one event does to the coordinator state.
pub open spec fn step(c: Coordinator, e: CoordEvent) -> Coordinator {
    match e {
        CoordEvent::Activation => if c.phase is Uninitialized {
            Coordinator {
                phase: Phase::Constructing,
                missed_resize: c.missed_resize,
                geometry: c.geometry,
                construction_starts: bump(c.construction_starts),
            }
        } else {
            c
        },
        CoordEvent::Resize(size) => if degenerate(size) {
            c
        } else if c.phase is Ready {
            Coordinator {
                phase: c.phase,
                missed_resize: c.missed_resize,
                geometry: match c.geometry {
                    Some(g) => Some(record_resize(g, size)),
                    None => None,
                },
                construction_starts: c.construction_starts,
            }
        } else {
            Coordinator {
                phase: c.phase,
                missed_resize: Some(size),
                geometry: c.geometry,
                construction_starts: c.construction_starts,
            }
        },
        CoordEvent::ConstructionComplete(initial_size) => if c.phase is Constructing {
            Coordinator {
                phase: Phase::Ready,
                missed_resize: None,
                geometry: Some(
                    match c.missed_resize {
                        Some(m) => record_resize(fresh_geometry(initial_size), m),
                        None => fresh_geometry(initial_size),
                    },
                ),
                construction_starts: c.construction_starts,
            }
        } else {
            c
        },
        CoordEvent::Redraw => if c.phase is Ready {
            Coordinator {
                phase: c.phase,
                missed_resize: c.missed_resize,
                geometry: match c.geometry {
                    Some(g) => Some(
                        if degenerate(g.tracked_size) {
                            g
                        } else {
                            SurfaceGeometry { tracked_size: g.tracked_size, resize_pending: false }
                        },
                    ),
                    None => None,
                },
                construction_starts: c.construction_starts,
            }
        } else {
            c
        },
    }
}

/// The coordinator state after a whole run of events, earliest first.
pub open spec fn run_events(c: Coordinator, es: Seq<CoordEvent>) -> Coordinator
    decreases es.len(),
{
    if es.len() == 0 {
        c
    } else {
        run_events(step(c, es[0]), es.drop_first())
    }
}

impl Coordinator {
    /// The coordinator's standing invariant.
    pub open spec fn wf(self) -> bool {
        &&& (self.phase is Ready <==> self.geometry is Some)
        &&& (self.phase is Uninitialized <==> self.construction_starts == 0)
        &&& self.construction_starts <= 1
        &&& (self.phase is Ready ==> self.missed_resize is None)
        &&& (self.missed_resize matches Some(m) ==> !degenerate(m))
    }

    /// A fresh coordinator: nothing constructed, nothing missed.
    pub fn new() -> (c: Coordinator)
        ensures
            c == initial_coordinator(),
            c.wf(),
    {
        Coordinator {
            phase: Phase::Uninitialized,
            missed_resize: None,
            geometry: None,
            construction_starts: 0,
        }
    }

    /// Handle a resume/activation signal. Returns whether the caller must
    /// start constructing the graphics context: true exactly when no
    /// construction was ever started, so repeated signals while
    /// Constructing or Ready are no-ops.
    pub fn on_activation(&mut self) -> (start_construction: bool)
        ensures
            *final(self) == step(*old(self), CoordEvent::Activation),
            start_construction == (old(self).phase is Uninitialized),
            start_construction ==> final(self).phase is Constructing
                && final(self).construction_starts == bump(old(self).construction_starts),
            !start_construction ==> *final(self) == *old(self),
            old(self).wf() ==> final(self).wf(),
    {
        match self.phase {
            Phase::Uninitialized => {
                self.phase = Phase::Constructing;
                self.construction_starts = if self.construction_starts == u32::MAX {
                    u32::MAX
                } else {
                    self.construction_starts + 1
                };
                true
            },
            _ => false,
        }
    }

    /// Handle a window-resize notification. A degenerate size is dropped
    /// outright. While the context is absent, a non-degenerate size
    /// overwrites the missed-resize record; once Ready it goes straight to
    /// the context's size tracking and nothing is recorded.
    pub fn on_resize(&mut self, size: Extent)
        ensures
            *final(self) == step(*old(self), CoordEvent::Resize(size)),
            final(self).phase == old(self).phase,
            final(self).construction_starts == old(self).construction_starts,
            degenerate(size) ==> *final(self) == *old(self),
            !degenerate(size) && !(old(self).phase is Ready) ==> final(self).missed_resize
                == Some(size) && final(self).geometry == old(self).geometry,
            !degenerate(size) && old(self).phase is Ready ==> {
                &&& final(self).missed_resize == old(self).missed_resize
                &&& (old(self).geometry matches Some(g) ==> final(self).geometry == Some(
                    record_resize(g, size),
                ))
            },
    {
        if size.is_degenerate() {
            return ;
        }
        match self.phase {
            Phase::Ready => {
                match &mut self.geometry {
                    Some(g) => g.set_window_resized(size),
                    None => {},
                }
            },
            _ => {
                self.missed_resize = Some(size);
            },
        }
    }

    /// Install the completed construction, whose surface was configured
    /// for `initial_size`. If a resize was missed while the context was
    /// absent, it is applied to the size tracking now, exactly once, and
    /// the record is cleared so it can never be reapplied. Returns whether
    /// the caller must request a redraw: true exactly when a missed resize
    /// was applied. A completion signal outside the Constructing phase
    /// changes nothing.
    pub fn on_construction_complete(&mut self, initial_size: Extent) -> (request_redraw: bool)
        ensures
            *final(self) == step(*old(self), CoordEvent::ConstructionComplete(initial_size)),
            request_redraw == (old(self).phase is Constructing
                && old(self).missed_resize is Some),
            old(self).phase is Constructing ==> {
                &&& final(self).phase is Ready
                &&& final(self).missed_resize is None
                &&& final(self).construction_starts == old(self).construction_starts
            },
            old(self).phase is Constructing && old(self).missed_resize is Some ==> ({
                let m = old(self).missed_resize.unwrap();
                &&& final(self).geometry == Some(record_resize(fresh_geometry(initial_size), m))
                &&& final(self).geometry.unwrap().tracked_size == m
            }),
            old(self).phase is Constructing && old(self).missed_resize is None
                ==> final(self).geometry == Some(fresh_geometry(initial_size)),
            !(old(self).phase is Constructing) ==> *final(self) == *old(self),
    {
        match self.phase {
            Phase::Constructing => {
                let mut g = SurfaceGeometry::new(initial_size);
                let request_redraw: bool = match self.missed_resize {
                    Some(m) => {
                        g.set_window_resized(m);
                        true
                    },
                    None => false,
                };
                self.missed_resize = None;
                self.geometry = Some(g);
                self.phase = Phase::Ready;
                request_redraw
            },
            _ => false,
        }
    }

    /// Handle a redraw request: decide what this frame does. Before Ready
    /// nothing happens. Once Ready the decision comes from the size
    /// tracking: skip without drawing while the tracked size is
    /// degenerate, otherwise draw, reconfiguring first if a resize is
    /// pending.
    pub fn on_redraw(&mut self) -> (plan: FramePlan)
        ensures
            *final(self) == step(*old(self), CoordEvent::Redraw),
            plan.draw == (old(self).phase is Ready && (old(self).geometry matches Some(g)
                && !degenerate(g.tracked_size))),
            !(old(self).phase is Ready) ==> *final(self) == *old(self)
                && plan.reconfigure is None,
            old(self).phase is Ready && old(self).geometry is Some ==> ({
                let g = old(self).geometry.unwrap();
                &&& degenerate(g.tracked_size) ==> *final(self) == *old(self)
                    && plan.reconfigure is None
                &&& !degenerate(g.tracked_size) && g.resize_pending ==> plan.reconfigure
                    == Some(g.tracked_size)
                &&& !degenerate(g.tracked_size) && !g.resize_pending ==> plan.reconfigure is None
            }),
    {
        match self.phase {
            Phase::Ready => {
                match &mut self.geometry {
                    Some(g) => g.begin_frame(),
                    None => FramePlan { draw: false, reconfigure: None },
                }
            },
            _ => FramePlan { draw: false, reconfigure: None },
        }
    }
}

impl Default for Coordinator {
    /// Same as `Coordinator::new`.
    fn default() -> (c: Coordinator)
        ensures
            c == initial_coordinator(),
    {
        Coordinator::new()
    }
}

/// One event keeps the invariant.
pub proof fn lemma_step_preserves_wf(c: Coordinator, e: CoordEvent)
    requires
        c.wf(),
    ensures
        step(c, e).wf(),
{
}

/// A whole run of events keeps the invariant.
pub proof fn lemma_run_preserves_wf(c: Coordinator, es: Seq<CoordEvent>)
    requires
        c.wf(),
    ensures
        run_events(c, es).wf(),
    decreases es.len(),
{
    if es.len() > 0 {
        lemma_step_preserves_wf(c, es[0]);
        lemma_run_preserves_wf(step(c, es[0]), es.drop_first());
    }
}

/// Law: under any run of events from the start of the process, at most one
/// construction is ever started, however many activation signals arrive.
pub proof fn lemma_at_most_one_construction(es: Seq<CoordEvent>)
    ensures
        run_events(initial_coordinator(), es).construction_starts <= 1,
{
    lemma_run_preserves_wf(initial_coordinator(), es);
}

/// Law: once the coordinator has left Uninitialized, no event brings it
/// back and no event starts another construction.
pub proof fn lemma_no_second_construction(c: Coordinator, e: CoordEvent)
    requires
        !(c.phase is Uninitialized),
    ensures
        !(step(c, e).phase is Uninitialized),
        step(c, e).construction_starts == c.construction_starts,
{
}

/// Law: once Ready, the coordinator stays Ready, so the construction can
/// complete at most once.
pub proof fn lemma_ready_is_final(c: Coordinator, e: CoordEvent)
    requires
        c.phase is Ready,
    ensures
        step(c, e).phase is Ready,
{
}

/// The missed-resize record after a run of notifications: each degenerate
/// size is dropped, each non-degenerate one replaces what was there.
pub open spec fn retained_resize(prior: Option<Extent>, sizes: Seq<Extent>) -> Option<Extent>
    decreases sizes.len(),
{
    if sizes.len() == 0 {
        prior
    } else {
        retained_resize(
            if degenerate(sizes[0]) {
                prior
            } else {
                Some(sizes[0])
            },
            sizes.drop_first(),
        )
    }
}

/// The same notifications as coordinator events.
pub open spec fn resize_events(sizes: Seq<Extent>) -> Seq<CoordEvent> {
    sizes.map_values(|s: Extent| CoordEvent::Resize(s))
}

/// Law: while the context is absent, only the last non-degenerate resize
/// notification is retained; degenerate ones never overwrite or clear a
/// stored value, and nothing else about the state moves.
pub proof fn lemma_missed_resize_last_nondegenerate(c: Coordinator, sizes: Seq<Extent>)
    requires
        !(c.phase is Ready),
    ensures
        ({
            let d = run_events(c, resize_events(sizes));
            &&& d.missed_resize == retained_resize(c.missed_resize, sizes)
            &&& d.phase == c.phase
            &&& d.geometry == c.geometry
            &&& d.construction_starts == c.construction_starts
        }),
    decreases sizes.len(),
{
    if sizes.len() > 0 {
        let c1 = step(c, CoordEvent::Resize(sizes[0]));
        assert(resize_events(sizes)[0] == CoordEvent::Resize(sizes[0]));
        assert(resize_events(sizes).drop_first() =~= resize_events(sizes.drop_first()));
        lemma_missed_resize_last_nondegenerate(c1, sizes.drop_first());
    }
}

/// Law: a missed resize is applied exactly once, at the moment the
/// construction completes: the installed context tracks exactly the missed
/// size and the record is cleared, so no later event can reapply it.
pub proof fn lemma_missed_resize_applied_on_ready(c: Coordinator, m: Extent, initial_size: Extent)
    requires
        c.phase is Constructing,
        c.missed_resize == Some(m),
    ensures
        ({
            let d = step(c, CoordEvent::ConstructionComplete(initial_size));
            &&& d.phase is Ready
            &&& d.geometry matches Some(g) && g.tracked_size == m
            &&& d.missed_resize is None
        }),
{
}

} // verus!
