//! The terminal records each participant keeps: the host's registry entries
//! for its live terminals, and the guest's remote views and in-flight attach
//! requests.

use vstd::prelude::*;
use crate::ids::TerminalId;
use crate::messages::TerminalInput;
use crate::screen::ScreenState;

verus! {

/// An opaque handle for the window a terminal or view is bound to; the
/// windowing layer owns what it means.
pub type WindowId = u64;

/// One live host-owned terminal as the registry sees it: its identifier and
/// the last state observed from the external emulation engine. The record
/// never keeps the underlying process alive; when the terminal's destruction
/// is observed, the entry is pruned.
#[derive(Debug, Clone, PartialEq, Eq)]
pub struct Terminal {
    /// The process-unique identifier guests address this terminal by.
    pub id: TerminalId,
    /// The window the terminal was created for.
    pub window: WindowId,
    /// The working directory the shell was started in, when one was given;
    /// the engine receives it verbatim.
    pub working_directory: Option<Vec<u8>>,
    /// The engine's most recent parser restart state, cached so an attach
    /// can be answered without consulting the engine.
    pub vte_state: Vec<u8>,
    /// The most recent screen snapshot the synchronizer observed.
    pub last_content: ScreenState,
}

/// The terminal bookkeeping of one participant. On the host,
/// `local_handles` is the Local Terminal Registry: the authoritative set of
/// live terminals, in creation order. On a guest, `remote_ids` is the cached
/// mirror of the host's shared directory, replaced wholesale on every
/// directory update.
#[derive(Debug, Clone, PartialEq, Eq)]
pub struct Terminals {
    pub local_handles: Vec<Terminal>,
    pub remote_ids: Vec<TerminalId>,
}

impl Terminals {
    /// No terminals known yet on either side.
    pub fn new() -> (r: Terminals)
        ensures
            r.local_handles@ == Seq::<Terminal>::empty(),
            r.remote_ids@ == Seq::<TerminalId>::empty(),
    {
        Terminals { local_handles: Vec::new(), remote_ids: Vec::new() }
    }
}

/// A guest-side view of one host terminal, bound to exactly one window. It
/// holds the last applied screen snapshot; frames replace it wholesale.
#[derive(Debug, Clone, PartialEq, Eq)]
pub struct RemoteTerminalView {
    /// The identifier of the host terminal this view observes.
    pub id: TerminalId,
    /// The window the view is bound to; tearing the window down removes the
    /// view.
    pub window: WindowId,
    /// The engine restart state received when the attach succeeded.
    pub vte_state: Vec<u8>,
    /// The last screen snapshot applied, seeded by the attach response.
    pub last_content: ScreenState,
}

impl RemoteTerminalView {
    /// Keystrokes typed into this view. They are never applied to the local
    /// snapshot — the view stays exactly as it was — but turned into an
    /// input message for the host, whose terminal is the single source of
    /// truth; the echo comes back through the ordinary frame broadcast.
    pub fn input(&self, project_id: u64, bytes: Vec<u8>) -> (m: TerminalInput)
        ensures
            m.project_id == project_id,
            m.id == self.id,
            m.bytes == bytes,
    {
        TerminalInput { project_id, id: self.id, bytes }
    }
}

/// An attach request a guest has sent and not yet heard back about. If the
/// window dies first, the eventual response is discarded without error.
#[derive(Debug, Clone, Copy, PartialEq, Eq, Structural)]
pub struct PendingAttach {
    pub id: TerminalId,
    pub window: WindowId,
}

} // verus!
