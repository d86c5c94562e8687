//! Per-output lock surfaces.
//!
//! Each connected display output owns exactly one [`LockSurface`]: a record
//! tying the output's identity to the hidden UI window that will cover it and
//! to the compositor-side lock-surface object.  The record outlives the
//! output itself: removal marks the surface destroyed instead of deleting it,
//! which keeps registry order stable for primary re-election.

use vstd::prelude::*;

verus! {

/// Lifecycle phase of a lock surface.
///
/// A freshly created surface waits for its native window to be realized;
/// realization binds the compositor's lock-surface object; the first
/// configure event applies a size and shows the window; output removal
/// destroys the surface.  Whether a configure event has arrived is tracked
/// separately in [`LockSurface::configured`], so "visible" can be related to
/// "was configured" in proofs.
#[derive(Clone, Copy, Debug, PartialEq, Eq, Structural)]
pub enum SurfacePhase {
    /// UI window requested (hidden); waiting for its native surface.
    Created,
    /// The compositor's lock-surface object has been requested.
    ProtocolBound,
    /// Sized by a compositor configure event and shown; the output is covered.
    Visible,
    /// The output was removed; the UI window has been told to close.
    Destroyed,
}

/// State kept for one currently- or formerly-connected output.
pub struct LockSurface {
    /// Identity of the output, stable for the life of the record.
    pub output: u64,
    /// Display name used only for primary election; may be rewritten when the
    /// compositor reports a rename, never used for lookup.
    pub output_name: String,
    /// Lifecycle phase, see [`SurfacePhase`].
    pub phase: SurfacePhase,
    /// Whether a compositor configure event has been received.
    pub configured: bool,
    /// False once the output is removed; inactive surfaces are excluded from
    /// primary election.
    pub is_active: bool,
}

impl LockSurface {
    /// Per-surface well-formedness: a surface is shown only after it was
    /// configured, and activity coincides with not being destroyed.
    pub open spec fn wf(self) -> bool {
        &&& (self.phase is Visible ==> self.configured)
        &&& (self.is_active <==> !(self.phase is Destroyed))
    }

    /// A fresh record for a newly added output: hidden, unconfigured, active.
    pub fn new(output: u64, output_name: String) -> (s: Self)
        ensures
            s == (LockSurface {
                output,
                output_name,
                phase: SurfacePhase::Created,
                configured: false,
                is_active: true,
            }),
            s.wf(),
    {
        LockSurface { output, output_name, phase: SurfacePhase::Created, configured: false, is_active: true }
    }
}

} // verus!
