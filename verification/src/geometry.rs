//! Size tracking for the rendering surface.
//!
//! Window-resize notifications can arrive far more often than frames are
//! rendered, so the surface is never reconfigured from the notification
//! path. A `SurfaceGeometry` only records the latest size and a pending
//! flag; the render path consumes the flag and reconfigures at most once
//! per frame, with the size that was tracked when the flag was last set.

use vstd::prelude::*;

verus! {

/// A window or surface size in physical pixels.
#[derive(Clone, Copy, PartialEq, Eq, Structural, Debug)]
pub struct Extent {
    pub width: u32,
    pub height: u32,
}

/// A size with zero width or zero height: a minimized or pre-layout
/// window. Such a size is never drawn to and never stored as missed.
pub open spec fn degenerate(e: Extent) -> bool {
    e.width == 0 || e.height == 0
}

impl Extent {
    /// Executable form of `degenerate`.
    pub fn is_degenerate(&self) -> (r: bool)
        ensures
            r == degenerate(*self),
    {
        self.width == 0 || self.height == 0
    }
}

/// Size-tracking substate of the graphics context.
#[derive(Clone, Copy, PartialEq, Eq, Structural, Debug)]
pub struct SurfaceGeometry {
    /// Last size the surface was (or is about to be) configured for.
    pub tracked_size: Extent,
    /// True when `tracked_size` differs from what the surface is
    /// configured for and the reconfiguration has not happened yet.
    pub resize_pending: bool,
}

/// Geometry as it stands right after the surface is configured for
/// `initial`: nothing pending.
pub open spec fn fresh_geometry(initial: Extent) -> SurfaceGeometry {
    SurfaceGeometry { tracked_size: initial, resize_pending: false }
}

/// What recording a resize notification does: a notification equal to the
/// tracked size is dropped, any other one replaces the tracked size and
/// marks the reconfiguration pending.
pub open spec fn record_resize(g: SurfaceGeometry, new_size: Extent) -> SurfaceGeometry {
    if new_size == g.tracked_size {
        g
    } else {
        SurfaceGeometry { tracked_size: new_size, resize_pending: true }
    }
}

/// The plan for one render: whether to draw at all, and whether the
/// surface must be reconfigured (and to which size) before drawing.
#[derive(Clone, Copy, PartialEq, Eq, Debug)]
pub struct FramePlan {
    pub draw: bool,
    pub reconfigure: Option<Extent>,
}

impl SurfaceGeometry {
    /// Geometry for a surface just configured at `initial`.
    pub fn new(initial: Extent) -> (g: SurfaceGeometry)
        ensures
            g == fresh_geometry(initial),
    {
        SurfaceGeometry { tracked_size: initial, resize_pending: false }
    }

    /// Record that the window size changed. A duplicate of the tracked
    /// size is a no-op; any other size is tracked and marked pending.
    pub fn set_window_resized(&mut self, new_size: Extent)
        ensures
            *final(self) == record_resize(*old(self), new_size),
            new_size == old(self).tracked_size ==> *final(self) == *old(self),
            new_size != old(self).tracked_size ==> final(self).tracked_size == new_size
                && final(self).resize_pending,
    {
        if new_size == self.tracked_size {
            return ;
        }
        self.tracked_size = new_size;
        self.resize_pending = true;
    }

    /// Consume a pending reconfiguration, if any: returns the size the
    /// surface must now be configured for, exactly the size tracked when
    /// the flag was last set, and clears the flag.
    pub fn take_reconfigure(&mut self) -> (r: Option<Extent>)
        ensures
            final(self).tracked_size == old(self).tracked_size,
            !final(self).resize_pending,
            old(self).resize_pending ==> r == Some(old(self).tracked_size),
            !old(self).resize_pending ==> r is None && *final(self) == *old(self),
    {
        if self.resize_pending {
            self.resize_pending = false;
            Some(self.tracked_size)
        } else {
            None
        }
    }

    /// The decision at the start of a render. A degenerate tracked size is
    /// a normal state: the frame succeeds with no draw and no
    /// reconfiguration, and the state is left untouched. Otherwise the
    /// frame draws, after the pending reconfiguration if there was one.
    pub fn begin_frame(&mut self) -> (plan: FramePlan)
        ensures
            final(self).tracked_size == old(self).tracked_size,
            plan.draw == !degenerate(old(self).tracked_size),
            degenerate(old(self).tracked_size) ==> *final(self) == *old(self)
                && plan.reconfigure is None,
            !degenerate(old(self).tracked_size) ==> !final(self).resize_pending && (
                if old(self).resize_pending {
                    plan.reconfigure == Some(old(self).tracked_size)
                } else {
                    plan.reconfigure is None
                }
            ),
    {
        if self.tracked_size.is_degenerate() {
            return FramePlan { draw: false, reconfigure: None };
        }
        let reconfigure: Option<Extent> = self.take_reconfigure();
        FramePlan { draw: true, reconfigure }
    }
}

/// Law: recording the same size twice changes nothing the second time, so
/// a duplicate notification can cause at most one reconfiguration.
pub proof fn lemma_record_resize_idempotent(g: SurfaceGeometry, size: Extent)
    ensures
        record_resize(record_resize(g, size), size) == record_resize(g, size),
{
}

} // verus!
