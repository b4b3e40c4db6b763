//! The convergence guarantees of the replication design, stated and proved
//! over the same specifications the operations promise.
//!
//! Both the shared directory and the frame channel replicate by full
//! snapshots, applied by wholesale replacement. These laws pin down why
//! that is self-healing: whatever a guest missed and in whatever order the
//! rest arrived, the last update it applies alone decides its state, so
//! once the transport is quiescent every guest agrees with the host.

use vstd::prelude::*;
use crate::ids::TerminalId;
use crate::messages::{TerminalFrame, UpdateTerminals};
use crate::project::Project;

verus! {

/// The directory mirror a guest holds after applying a run of updates in
/// order, starting from any cached copy: each update replaces the mirror
/// wholesale.
pub open spec fn directory_after(
    cache: Seq<TerminalId>,
    msgs: Seq<UpdateTerminals>,
) -> Seq<TerminalId>
    decreases msgs.len(),
{
    if msgs.len() == 0 {
        cache
    } else {
        directory_after(msgs[0].terminals@, msgs.drop_first())
    }
}

/// Whole-snapshot replacement is last-write-wins: after applying any
/// non-empty run of directory updates, the mirror equals the last update's
/// payload, whatever it held before and whatever the earlier updates said.
pub proof fn lemma_directory_last_write_wins(cache: Seq<TerminalId>, msgs: Seq<UpdateTerminals>)
    requires
        msgs.len() > 0,
    ensures
        directory_after(cache, msgs) == msgs.last().terminals@,
    decreases msgs.len(),
{
    let rest = msgs.drop_first();
    assert(directory_after(cache, msgs) == directory_after(msgs[0].terminals@, rest));
    if rest.len() == 0 {
        assert(directory_after(msgs[0].terminals@, rest) == msgs[0].terminals@);
        assert(msgs.last() == msgs[0]);
    } else {
        lemma_directory_last_write_wins(msgs[0].terminals@, rest);
        assert(rest.last() == msgs.last());
    }
}

/// Directory convergence: every host mutation broadcasts the full snapshot
/// of its live identifiers, so once the transport is quiescent — the last
/// update a guest applied is the host's current snapshot — the guest's
/// cached directory equals the host's live registry id set, for any
/// sequence of creates and destroys and regardless of which earlier
/// updates the guest saw.
pub proof fn lemma_directory_convergence(
    host: Project,
    cache: Seq<TerminalId>,
    msgs: Seq<UpdateTerminals>,
)
    requires
        msgs.len() > 0,
        msgs.last().terminals@ == host.live_ids(),
    ensures
        directory_after(cache, msgs) == host.live_ids(),
{
    lemma_directory_last_write_wins(cache, msgs);
}

/// The content a remote view for one terminal holds after taking delivery
/// of a run of frame broadcasts in order: frames for its terminal replace
/// the content wholesale, frames for other terminals leave it alone.
pub open spec fn view_content_after(
    content: Seq<u8>,
    id: TerminalId,
    frames: Seq<TerminalFrame>,
) -> Seq<u8>
    decreases frames.len(),
{
    if frames.len() == 0 {
        content
    } else {
        let next = if frames[0].id == id {
            frames[0].content@
        } else {
            content
        };
        view_content_after(next, id, frames.drop_first())
    }
}

/// Frames addressed to other terminals never touch a view's content.
pub proof fn lemma_foreign_frames_ignored(
    content: Seq<u8>,
    id: TerminalId,
    frames: Seq<TerminalFrame>,
)
    requires
        forall|m: int| 0 <= m < frames.len() ==> frames[m].id != id,
    ensures
        view_content_after(content, id, frames) == content,
    decreases frames.len(),
{
    if frames.len() > 0 {
        assert(frames[0].id != id);
        lemma_foreign_frames_ignored(content, id, frames.drop_first());
    }
}

/// Frame replacement is last-write-wins per terminal: after any run of
/// frame broadcasts, a view's content equals the payload of the last frame
/// addressed to its terminal, whatever the view held before.
pub proof fn lemma_frame_last_write_wins(
    content: Seq<u8>,
    id: TerminalId,
    frames: Seq<TerminalFrame>,
    k: int,
)
    requires
        0 <= k < frames.len(),
        frames[k].id == id,
        forall|m: int| k < m < frames.len() ==> frames[m].id != id,
    ensures
        view_content_after(content, id, frames) == frames[k].content@,
    decreases frames.len(),
{
    let rest = frames.drop_first();
    if k == 0 {
        assert(view_content_after(content, id, frames)
            == view_content_after(frames[0].content@, id, rest));
        assert forall|m: int| 0 <= m < rest.len() implies rest[m].id != id by {
            assert(rest[m] == frames[m + 1]);
        }
        lemma_foreign_frames_ignored(frames[0].content@, id, rest);
    } else {
        assert(rest[k - 1] == frames[k]);
        assert forall|m: int| k - 1 < m < rest.len() implies rest[m].id != id by {
            assert(rest[m] == frames[m + 1]);
        }
        lemma_frame_last_write_wins(
            if frames[0].id == id {
                frames[0].content@
            } else {
                content
            },
            id,
            rest,
            k - 1,
        );
    }
}

/// Frame convergence: the synchronizer replaces the host's own cached
/// content with every frame it broadcasts, so once the channel is quiescent
/// — the last frame broadcast for a terminal is the last one the guest
/// applied — an attached view's content equals the host's `last_content`
/// for that terminal, for any sequence of host-side input.
pub proof fn lemma_frame_convergence(
    host: Project,
    id: TerminalId,
    seed: Seq<u8>,
    frames: Seq<TerminalFrame>,
    k: int,
)
    requires
        host.wf(),
        host.live_ids().contains(id),
        0 <= k < frames.len(),
        frames[k].id == id,
        forall|m: int| k < m < frames.len() ==> frames[m].id != id,
        frames[k].content@ == host.terminals.local_handles@[host.live_ids().index_of(
            id,
        )].last_content@,
    ensures
        view_content_after(seed, id, frames)
            == host.terminals.local_handles@[host.live_ids().index_of(id)].last_content@,
{
    lemma_frame_last_write_wins(seed, id, frames, k);
}

/// No duplicate identifiers: all terminals live in one well-formed host
/// registry carry pairwise distinct identifiers, and — because every
/// identifier the allocator ever returned is recorded — an identifier is
/// never reused while its terminal remains live.
pub proof fn lemma_no_duplicate_ids(host: Project)
    requires
        host.wf(),
    ensures
        forall|i: int, j: int|
            0 <= i < j < host.live_ids().len() ==> host.live_ids()[i] != host.live_ids()[j],
{
    assert forall|i: int, j: int| 0 <= i < j < host.live_ids().len()
        implies host.live_ids()[i] != host.live_ids()[j] by {
        assert(host.terminals.local_handles@[i].id != host.terminals.local_handles@[j].id);
    }
}

/// Stale-destroy safety: once the host has observed a terminal's
/// destruction, its identifier is absent from the host's registry and so
/// from the snapshot of every subsequent directory update; a guest applying
/// that update loses the identifier from its mirror while every outstanding
/// view survives untouched, to be torn down by its own window, not by the
/// race.
pub proof fn lemma_stale_destroy_safety(
    host: Project,
    guest_pre: Project,
    guest_post: Project,
    update: UpdateTerminals,
    id: TerminalId,
)
    requires
        !host.live_ids().contains(id),
        update.terminals@ == host.live_ids(),
        guest_post.terminals.remote_ids == update.terminals,
        guest_post.remote_views == guest_pre.remote_views,
    ensures
        !guest_post.terminals.remote_ids@.contains(id),
        guest_post.remote_views@.len() == guest_pre.remote_views@.len(),
        forall|m: int| 0 <= m < guest_pre.remote_views@.len()
            ==> guest_post.remote_views@[m] == guest_pre.remote_views@[m],
{
}

} // verus!
