//! The wire-level vocabulary of the replication protocol: the messages the
//! host and guests exchange (framing and delivery belong to the external
//! transport; only the semantic fields live here) and the error kinds of the
//! subsystem.

use vstd::prelude::*;
use crate::ids::TerminalId;
use crate::screen::ScreenState;

verus! {

/// Host to all guests: a full snapshot of the shared terminal directory.
/// Whole-set replacement is deliberate: it is idempotent and self-healing,
/// so a guest that missed an intermediate update still converges on the next
/// one, and out-of-order delivery cannot corrupt its view.
#[derive(Debug, Clone, PartialEq, Eq)]
pub struct UpdateTerminals {
    pub project_id: u64,
    pub terminals: Vec<TerminalId>,
}

/// Guest to host: a request to attach to one shared terminal.
#[derive(Debug, Clone, PartialEq, Eq)]
pub struct OpenTerminal {
    pub project_id: u64,
    pub id: TerminalId,
}

/// Host to guest: the successful answer to an `OpenTerminal` request. It
/// carries enough to reconstruct the guest's initial view: the emulation
/// engine's restart state and the currently visible cell content.
#[derive(Debug, Clone, PartialEq, Eq)]
pub struct OpenTerminalResponse {
    pub vte_state: Vec<u8>,
    pub visible_terminal_cells: ScreenState,
}

/// Host to attached guests: one terminal's current screen state. Guests
/// apply it by full replacement, so the most recent frame wins and no
/// reconciliation is ever needed.
#[derive(Debug, Clone, PartialEq, Eq)]
pub struct TerminalFrame {
    pub id: TerminalId,
    pub content: ScreenState,
}

/// Guest to host: keystrokes typed into a remote view. A guest never applies
/// its own input locally; the echo flows back through the ordinary frame
/// broadcast, so the host terminal stays the single source of truth.
#[derive(Debug, Clone, PartialEq, Eq)]
pub struct TerminalInput {
    pub project_id: u64,
    pub id: TerminalId,
    pub bytes: Vec<u8>,
}

/// A one-way message the host hands to the transport for fan-out.
#[derive(Debug, Clone, PartialEq, Eq)]
pub enum HostBroadcast {
    Directory(UpdateTerminals),
    Frame(TerminalFrame),
}

/// The broadcast is a directory snapshot for this project holding exactly
/// these identifiers, in this order.
pub open spec fn is_directory_broadcast(m: HostBroadcast, project_id: u64, ids: Seq<TerminalId>) -> bool {
    match m {
        HostBroadcast::Directory(u) => u.project_id == project_id && u.terminals@ == ids,
        HostBroadcast::Frame(_) => false,
    }
}

/// The broadcast is a frame for this terminal carrying exactly these cells.
pub open spec fn is_frame_broadcast(m: HostBroadcast, id: TerminalId, cells: Seq<u8>) -> bool {
    match m {
        HostBroadcast::Directory(_) => false,
        HostBroadcast::Frame(f) => f.id == id && f.content@ == cells,
    }
}

/// The error kinds of the subsystem. None is fatal to the process; each is
/// scoped to one terminal or session.
#[derive(Debug, Clone, Copy, PartialEq, Eq, Structural)]
pub enum ShareError {
    /// A guest attempted a host-only operation, such as creating a local
    /// terminal.
    RoleError,
    /// An attach referenced an identifier no longer present: an expected
    /// race between directory updates and attach attempts, recoverable by
    /// re-reading the directory.
    NotFound,
    /// The request/response channel broke or timed out; surfaced to the
    /// caller, never retried at this layer.
    TransportFailure,
    /// A response or frame arrived for a view already torn down; discarded
    /// silently, never reported to the caller.
    StaleView,
}

} // verus!
