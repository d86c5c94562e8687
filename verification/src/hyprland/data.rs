//! Data answered by the command socket.

use vstd::prelude::*;

use super::types::{MonitorId, WorkspaceId};

verus! {

/// A basic identifier for a workspace, as other records carry it.
#[derive(Debug, Clone, PartialEq, Eq)]
pub struct WorkspaceBasic {
    /// The workspace id.
    pub id: WorkspaceId,
    /// The workspace's name.
    pub name: String,
}

/// The possible monitor transforms.
#[derive(Debug, Clone, Copy, PartialEq, Eq, Structural)]
pub enum Transforms {
    /// No transform.
    Normal,
    /// Rotated 90 degrees.
    Normal90,
    /// Rotated 180 degrees.
    Normal180,
    /// Rotated 270 degrees.
    Normal270,
    /// Flipped.
    Flipped,
    /// Flipped and rotated 90 degrees.
    Flipped90,
    /// Flipped and rotated 180 degrees.
    Flipped180,
    /// Flipped and rotated 270 degrees.
    Flipped270,
}

/// Space claimed by layer surfaces on each edge, in pre-scale pixels.
#[derive(Debug, Clone, Copy, PartialEq, Eq, Structural)]
pub struct ReservedArea {
    pub left: u16,
    pub right: u16,
    pub top: u16,
    pub bottom: u16,
}

/// A monitor, as the library reads it: identity, geometry and state.  The
/// compositor also reports fractional refresh-rate and scale values, which
/// stay with the decoding layer in the surrounding program.
#[derive(Debug, Clone, PartialEq, Eq)]
pub struct Monitor {
    /// The monitor id.
    pub id: MonitorId,
    /// The monitor's name.
    pub name: String,
    /// The monitor's description.
    pub description: String,
    /// Width in pixels.
    pub width: u16,
    /// Height in pixels.
    pub height: u16,
    /// Position on the x axis.
    pub x: i32,
    /// Position on the y axis.
    pub y: i32,
    /// The active workspace.
    pub active_workspace: WorkspaceBasic,
    /// Space claimed by layer surfaces, in pre-scale pixels.
    pub reserved: ReservedArea,
    /// The monitor's transform.
    pub transform: Transforms,
    /// Whether the monitor is focused.
    pub focused: bool,
    /// The dpms status of the monitor.
    pub dpms_status: bool,
    /// Whether variable refresh rate is on.
    pub vrr: bool,
}

} // verus!
