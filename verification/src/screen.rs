//! Screen state: the opaque snapshot of a terminal's visible cell grid that
//! the external emulation engine produces. The replication layer never
//! interprets it; it only stores, transmits and replaces it wholesale.

use vstd::prelude::*;
use crate::bytes::{clone_bytes, contains_bytes, contains_slice};

verus! {

/// A snapshot of a terminal's visible contents, treated as a value type:
/// replacing it atomically updates the last observed content. The bytes are
/// whatever the emulation engine rendered; this crate never patches them
/// incrementally, so a dropped or reordered frame is superseded cleanly by
/// the next one.
#[derive(Debug, Clone, PartialEq, Eq)]
pub struct ScreenState {
    /// The rendered cell contents, as the engine serialized them.
    pub cells: Vec<u8>,
}

impl View for ScreenState {
    type V = Seq<u8>;

    open spec fn view(&self) -> Seq<u8> {
        self.cells@
    }
}

impl ScreenState {
    /// A blank screen, the state of a terminal before its first frame.
    pub fn empty() -> (r: ScreenState)
        ensures
            r@ == Seq::<u8>::empty(),
    {
        ScreenState { cells: Vec::new() }
    }

    /// An exact copy of this snapshot.
    pub fn duplicate(&self) -> (r: ScreenState)
        ensures
            r@ == self@,
    {
        ScreenState { cells: clone_bytes(&self.cells) }
    }

    /// Whether the rendered contents hold the given text: the observability
    /// hook used to detect that a screen state has caught up to an expected
    /// input echo.
    pub fn contains_text(&self, pattern: &[u8]) -> (r: bool)
        ensures
            r == contains_bytes(self@, pattern@),
    {
        contains_slice(self.cells.as_slice(), pattern)
    }
}

} // verus!
