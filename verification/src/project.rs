//! The per-participant state of the replication subsystem and its
//! operations: terminal creation and release on the host, the shared
//! directory on both sides, the attach protocol, and the frame synchronizer.
//!
//! All mutations of one participant's state are serialized through the
//! single owner of that `Project` value; the external transport delivers the
//! broadcasts in `outgoing` to the other participants in order, per channel.

use vstd::prelude::*;
use crate::ids::{TerminalId, TerminalIdAllocator};
use crate::messages::{
    HostBroadcast, OpenTerminal, OpenTerminalResponse, ShareError, TerminalFrame, TerminalInput,
    UpdateTerminals, is_directory_broadcast, is_frame_broadcast,
};
use crate::bytes::clone_bytes;
use crate::screen::ScreenState;
use crate::terminals::{PendingAttach, RemoteTerminalView, Terminal, Terminals, WindowId};

verus! {

/// What part a participant plays for one project.
#[derive(Debug, Clone, Copy, PartialEq, Eq, Structural)]
pub enum ProjectRole {
    /// The host of a project that is not shared: terminals are local only
    /// and nothing is broadcast.
    Local,
    /// The host of a shared project: every registry mutation and every frame
    /// is broadcast to the guests under this project identifier.
    SharedHost { project_id: u64 },
    /// A guest of a shared project: it only mirrors what the host sends.
    Guest { project_id: u64 },
}

/// One participant's replicated-terminal state.
pub struct Project {
    pub role: ProjectRole,
    /// Host registry and guest directory mirror.
    pub terminals: Terminals,
    /// Host-side identity allocation.
    pub id_alloc: TerminalIdAllocator,
    /// Guest-side views created by successful attaches.
    pub remote_views: Vec<RemoteTerminalView>,
    /// Guest-side attach requests still awaiting a response.
    pub pending_attaches: Vec<PendingAttach>,
    /// Host-side one-way messages handed to the transport, oldest first.
    pub outgoing: Vec<HostBroadcast>,
}

/// No two registry entries carry the same identifier.
pub open spec fn distinct_ids(s: Seq<Terminal>) -> bool {
    forall|i: int, j: int| 0 <= i < j < s.len() ==> s[i].id != s[j].id
}

/// Every registry entry's identifier came out of the allocator.
pub open spec fn ids_allocated(s: Seq<Terminal>, allocated: Set<TerminalId>) -> bool {
    forall|i: int| 0 <= i < s.len() ==> allocated.contains(#[trigger] s[i].id)
}

impl Project {
    /// The host's authoritative directory: the identifiers of all live
    /// terminals, in creation order.
    pub open spec fn live_ids(self) -> Seq<TerminalId> {
        self.terminals.local_handles@.map_values(|t: Terminal| t.id)
    }

    /// The participant is a guest of a remote host.
    pub open spec fn is_guest(self) -> bool {
        self.role is Guest
    }

    /// Registry well-formedness: identifiers are pairwise distinct and all
    /// stem from this registry's allocator.
    pub open spec fn wf(self) -> bool {
        &&& self.id_alloc.wf()
        &&& distinct_ids(self.terminals.local_handles@)
        &&& ids_allocated(self.terminals.local_handles@, self.id_alloc.allocated@)
    }

    /// The guest-side bookkeeping is untouched.
    pub open spec fn guest_side_unchanged(pre: Project, post: Project) -> bool {
        &&& post.terminals.remote_ids == pre.terminals.remote_ids
        &&& post.remote_views == pre.remote_views
        &&& post.pending_attaches == pre.pending_attaches
    }

    /// The host-side bookkeeping is untouched.
    pub open spec fn host_side_unchanged(pre: Project, post: Project) -> bool {
        &&& post.terminals.local_handles == pre.terminals.local_handles
        &&& post.id_alloc == pre.id_alloc
        &&& post.outgoing == pre.outgoing
    }

    /// A participant that knows of no terminals yet.
    pub fn new(role: ProjectRole) -> (r: Project)
        ensures
            r.wf(),
            r.role == role,
            r.terminals.local_handles@ == Seq::<Terminal>::empty(),
            r.terminals.remote_ids@ == Seq::<TerminalId>::empty(),
            r.remote_views@ == Seq::<RemoteTerminalView>::empty(),
            r.pending_attaches@ == Seq::<PendingAttach>::empty(),
            r.outgoing@ == Seq::<HostBroadcast>::empty(),
            r.live_ids() == Seq::<TerminalId>::empty(),
            r.id_alloc.next == 0,
    {
        let p = Project {
            role,
            terminals: Terminals::new(),
            id_alloc: TerminalIdAllocator::new(),
            remote_views: Vec::new(),
            pending_attaches: Vec::new(),
            outgoing: Vec::new(),
        };
        proof {
            assert(p.live_ids() =~= Seq::<TerminalId>::empty());
        }
        p
    }

    /// This participant only mirrors a remote host's terminals.
    pub fn is_remote(&self) -> (r: bool)
        ensures
            r == self.is_guest(),
    {
        match self.role {
            ProjectRole::Guest { .. } => true,
            _ => false,
        }
    }

    /// The project identifier under which this participant shares or
    /// follows, if any.
    pub fn remote_id(&self) -> (r: Option<u64>)
        ensures
            match r {
                Some(pid) => self.role == (ProjectRole::SharedHost { project_id: pid })
                    || self.role == (ProjectRole::Guest { project_id: pid }),
                None => self.role == ProjectRole::Local,
            },
    {
        match self.role {
            ProjectRole::Local => None,
            ProjectRole::SharedHost { project_id } => Some(project_id),
            ProjectRole::Guest { project_id } => Some(project_id),
        }
    }

    /// The most recent shared-terminal directory this participant has
    /// applied: the cached mirror of the host's broadcasts.
    pub fn shared_terminals(&self) -> (r: &[TerminalId])
        ensures
            r@ == self.terminals.remote_ids@,
    {
        self.terminals.remote_ids.as_slice()
    }

    /// The host registry's live entries.
    pub fn local_terminal_handles(&self) -> (r: &Vec<Terminal>)
        ensures
            r@ == self.terminals.local_handles@,
    {
        &self.terminals.local_handles
    }

    /// Resolve an identifier to the position of its registry entry. A stale
    /// identifier is reported as absence, never a fault. When present, the
    /// returned position is the first match.
    pub fn lookup(&self, id: TerminalId) -> (r: Option<usize>)
        ensures
            match r {
                Some(i) => {
                    &&& i < self.terminals.local_handles@.len()
                    &&& self.terminals.local_handles@[i as int].id == id
                    &&& forall|m: int| 0 <= m < i ==> self.terminals.local_handles@[m].id != id
                },
                None => !self.live_ids().contains(id),
            },
    {
        let n: usize = self.terminals.local_handles.len();
        let mut i: usize = 0;
        while i < n
            invariant
                n == self.terminals.local_handles@.len(),
                i <= n,
                forall|m: int| 0 <= m < i ==> self.terminals.local_handles@[m].id != id,
            decreases n - i,
        {
            if self.terminals.local_handles[i].id == id {
                return Some(i);
            }
            i = i + 1;
        }
        proof {
            assert forall|k: int| 0 <= k < self.live_ids().len()
                implies self.live_ids()[k] != id by {
                assert(self.terminals.local_handles@[k].id != id);
            }
        }
        None
    }

    /// The full snapshot the host advertises: all live identifiers, in
    /// order.
    pub fn directory_snapshot(&self) -> (v: Vec<TerminalId>)
        ensures
            v@ == self.live_ids(),
    {
        let n: usize = self.terminals.local_handles.len();
        let mut v: Vec<TerminalId> = Vec::new();
        let mut i: usize = 0;
        while i < n
            invariant
                n == self.terminals.local_handles@.len(),
                i <= n,
                v@ == self.live_ids().take(i as int),
            decreases n - i,
        {
            v.push(self.terminals.local_handles[i].id);
            proof {
                assert(self.live_ids().take(i + 1 as int)
                    =~= self.live_ids().take(i as int).push(self.live_ids()[i as int]));
            }
            i = i + 1;
        }
        proof {
            assert(self.live_ids().take(n as int) =~= self.live_ids());
        }
        v
    }

    /// Host only: start a terminal bound to a window, register it, and — if
    /// the project is shared — broadcast the new directory snapshot. A guest
    /// must not create local terminals; the call fails without any effect.
    /// The external engine owns the process; this registers the identity and
    /// seeds the cached state blank until the first frame arrives.
    pub fn create_terminal(
        &mut self,
        working_directory: Option<Vec<u8>>,
        window: WindowId,
    ) -> (r: Result<TerminalId, ShareError>)
        requires
            old(self).wf(),
            old(self).id_alloc.next < TerminalId::MAX,
        ensures
            final(self).wf(),
            final(self).role == old(self).role,
            Self::guest_side_unchanged(*old(self), *final(self)),
            match r {
                Err(e) => {
                    &&& e == ShareError::RoleError
                    &&& old(self).is_guest()
                    &&& Self::host_side_unchanged(*old(self), *final(self))
                },
                Ok(id) => {
                    &&& !old(self).is_guest()
                    &&& !old(self).id_alloc.allocated@.contains(id)
                    &&& !old(self).live_ids().contains(id)
                    &&& id == old(self).id_alloc.next
                    &&& final(self).id_alloc.next == old(self).id_alloc.next + 1
                    &&& final(self).id_alloc.allocated@
                        == old(self).id_alloc.allocated@.insert(id)
                    &&& final(self).live_ids() == old(self).live_ids().push(id)
                    &&& final(self).terminals.local_handles@.len()
                        == old(self).terminals.local_handles@.len() + 1
                    &&& final(self).terminals.local_handles@.drop_last()
                        == old(self).terminals.local_handles@
                    &&& ({
                        let t = final(self).terminals.local_handles@.last();
                        &&& t.id == id
                        &&& t.window == window
                        &&& t.working_directory == working_directory
                        &&& t.vte_state@ == Seq::<u8>::empty()
                        &&& t.last_content@ == Seq::<u8>::empty()
                    })
                    &&& match old(self).role {
                        ProjectRole::SharedHost { project_id } => {
                            &&& final(self).outgoing@.len() == old(self).outgoing@.len() + 1
                            &&& final(self).outgoing@.drop_last() == old(self).outgoing@
                            &&& is_directory_broadcast(
                                final(self).outgoing@.last(),
                                project_id,
                                final(self).live_ids(),
                            )
                        },
                        _ => final(self).outgoing == old(self).outgoing,
                    }
                },
            },
    {
        let role = self.role;
        if let ProjectRole::Guest { .. } = role {
            return Err(ShareError::RoleError);
        }
        let id = self.id_alloc.fresh();
        let t = Terminal {
            id,
            window,
            working_directory,
            vte_state: Vec::new(),
            last_content: ScreenState::empty(),
        };
        self.terminals.local_handles.push(t);
        proof {
            let pre = old(self).terminals.local_handles@;
            let post = self.terminals.local_handles@;
            assert(post.drop_last() =~= pre);
            assert(self.live_ids() =~= old(self).live_ids().push(id));
            assert forall|i: int, j: int| 0 <= i < j < post.len()
                implies post[i].id != post[j].id by {
                if j == post.len() - 1 {
                    assert(old(self).id_alloc.allocated@.contains(pre[i].id));
                }
            }
        }
        if let ProjectRole::SharedHost { project_id } = role {
            let snapshot = self.directory_snapshot();
            self.outgoing.push(HostBroadcast::Directory(UpdateTerminals {
                project_id,
                terminals: snapshot,
            }));
            proof {
                assert(self.outgoing@.drop_last() =~= old(self).outgoing@);
            }
        }
        Ok(id)
    }

    /// The release observer: the external engine or window signalled that
    /// this terminal is gone, so its registry entry is pruned and — if the
    /// project is shared — the shrunken directory snapshot is broadcast. A
    /// stale identifier is a no-op, never a fault.
    pub fn handle_terminal_released(&mut self, id: TerminalId)
        requires
            old(self).wf(),
        ensures
            final(self).wf(),
            final(self).role == old(self).role,
            Self::guest_side_unchanged(*old(self), *final(self)),
            final(self).id_alloc == old(self).id_alloc,
            final(self).live_ids() == old(self).live_ids().remove_value(id),
            !final(self).live_ids().contains(id),
            if old(self).live_ids().contains(id) {
                match old(self).role {
                    ProjectRole::SharedHost { project_id } => {
                        &&& final(self).outgoing@.len() == old(self).outgoing@.len() + 1
                        &&& final(self).outgoing@.drop_last() == old(self).outgoing@
                        &&& is_directory_broadcast(
                            final(self).outgoing@.last(),
                            project_id,
                            final(self).live_ids(),
                        )
                    },
                    _ => final(self).outgoing == old(self).outgoing,
                }
            } else {
                Self::host_side_unchanged(*old(self), *final(self))
            },
    {
        let found = self.lookup(id);
        match found {
            None => {
                proof {
                    old(self).live_ids().index_of_first_ensures(id);
                    assert(old(self).live_ids().remove_value(id)
                        == old(self).live_ids());
                }
            },
            Some(k) => {
                self.terminals.local_handles.remove(k);
                proof {
                    let pre = old(self).terminals.local_handles@;
                    let post = self.terminals.local_handles@;
                    let ids_pre = old(self).live_ids();
                    assert(ids_pre[k as int] == id);
                    assert(ids_pre.contains(id));
                    assert(post =~= pre.remove(k as int));
                    assert(self.live_ids() =~= ids_pre.remove(k as int));
                    lemma_first_match_is_removed(ids_pre, id, k as int);
                    assert forall|m: int| 0 <= m < self.live_ids().len()
                        implies self.live_ids()[m] != id by {
                        if m < k {
                            assert(ids_pre[m] != id);
                        } else {
                            assert(self.live_ids()[m] == ids_pre[m + 1]);
                        }
                    }
                    assert forall|i: int, j: int| 0 <= i < j < post.len()
                        implies post[i].id != post[j].id by {
                        let pi: int = if i < k { i } else { i + 1 };
                        let pj: int = if j < k { j } else { j + 1 };
                        assert(post[i] == pre[pi]);
                        assert(post[j] == pre[pj]);
                    }
                    assert forall|i: int| 0 <= i < post.len()
                        implies self.id_alloc.allocated@.contains(post[i].id) by {
                        let pi: int = if i < k { i } else { i + 1 };
                        assert(post[i] == pre[pi]);
                    }
                }
                let role = self.role;
                if let ProjectRole::SharedHost { project_id } = role {
                    let snapshot = self.directory_snapshot();
                    self.outgoing.push(HostBroadcast::Directory(UpdateTerminals {
                        project_id,
                        terminals: snapshot,
                    }));
                    proof {
                        assert(self.outgoing@.drop_last() =~= old(self).outgoing@);
                    }
                }
            },
        }
    }
}

impl Project {
    /// Guest side: apply a directory broadcast by replacing the cached copy
    /// wholesale — never by merging — so the most recent update alone
    /// determines the mirror, whatever was missed before it.
    pub fn handle_update_terminals(&mut self, envelope: UpdateTerminals)
        ensures
            final(self).terminals.remote_ids == envelope.terminals,
            final(self).role == old(self).role,
            final(self).terminals.local_handles == old(self).terminals.local_handles,
            final(self).id_alloc == old(self).id_alloc,
            final(self).outgoing == old(self).outgoing,
            final(self).remote_views == old(self).remote_views,
            final(self).pending_attaches == old(self).pending_attaches,
            old(self).wf() ==> final(self).wf(),
    {
        self.terminals.remote_ids = envelope.terminals;
    }

    /// Guest side: ask the host to open one shared terminal for a window.
    /// Attaching to an identifier the cached directory does not hold fails
    /// fast locally with `NotFound` and sends nothing; otherwise the request
    /// is handed back for the transport and remembered until the response
    /// arrives.
    pub fn open_remote_terminal(
        &mut self,
        project_id: u64,
        remote_terminal_id: TerminalId,
        window: WindowId,
    ) -> (r: Result<OpenTerminal, ShareError>)
        ensures
            final(self).role == old(self).role,
            Self::host_side_unchanged(*old(self), *final(self)),
            final(self).terminals.remote_ids == old(self).terminals.remote_ids,
            final(self).remote_views == old(self).remote_views,
            old(self).wf() ==> final(self).wf(),
            match r {
                Ok(req) => {
                    &&& old(self).terminals.remote_ids@.contains(remote_terminal_id)
                    &&& req == (OpenTerminal { project_id, id: remote_terminal_id })
                    &&& final(self).pending_attaches@ == old(self).pending_attaches@.push(
                        (PendingAttach { id: remote_terminal_id, window }),
                    )
                },
                Err(e) => {
                    &&& e == ShareError::NotFound
                    &&& !old(self).terminals.remote_ids@.contains(remote_terminal_id)
                    &&& final(self).pending_attaches == old(self).pending_attaches
                },
            },
    {
        if !contains_id(&self.terminals.remote_ids, remote_terminal_id) {
            return Err(ShareError::NotFound);
        }
        self.pending_attaches.push(PendingAttach { id: remote_terminal_id, window });
        Ok(OpenTerminal { project_id, id: remote_terminal_id })
    }

    /// Host side: answer an attach request. A missing identifier is the
    /// expected race between directory updates and attach attempts and is
    /// answered `NotFound`; a live one is answered with the engine restart
    /// state and the visible cells last observed from the engine. All engine
    /// frames pass through the frame synchronizer under the same single
    /// owner as this handler, so the cached state is the latest — the
    /// synchronization barrier the response needs.
    pub fn handle_open_terminal(&self, envelope: OpenTerminal) -> (r: Result<
        OpenTerminalResponse,
        ShareError,
    >)
        requires
            self.wf(),
        ensures
            match r {
                Ok(resp) => {
                    &&& self.live_ids().contains(envelope.id)
                    &&& ({
                        let t = self.terminals.local_handles@[self.live_ids().index_of(
                            envelope.id,
                        )];
                        &&& resp.vte_state@ == t.vte_state@
                        &&& resp.visible_terminal_cells@ == t.last_content@
                    })
                },
                Err(e) => {
                    &&& e == ShareError::NotFound
                    &&& !self.live_ids().contains(envelope.id)
                },
            },
    {
        match self.lookup(envelope.id) {
            None => Err(ShareError::NotFound),
            Some(i) => {
                proof {
                    assert(self.live_ids()[i as int] == envelope.id);
                    assert(self.live_ids().contains(envelope.id));
                    let w = self.live_ids().index_of(envelope.id);
                    assert(self.live_ids()[w] == envelope.id);
                    if w != i as int {
                        assert(self.terminals.local_handles@[w].id
                            == self.terminals.local_handles@[i as int].id);
                    }
                }
                let t = &self.terminals.local_handles[i];
                Ok(OpenTerminalResponse {
                    vte_state: clone_bytes(&t.vte_state),
                    visible_terminal_cells: t.last_content.duplicate(),
                })
            },
        }
    }

    /// Guest side: take delivery of the host's answer to an attach request.
    /// If the window was torn down first — the request is no longer pending
    /// — the response is discarded silently, a normal race. Otherwise a
    /// failure is surfaced to the caller unchanged, and a success creates
    /// the remote view, seeded with the received state; its position in
    /// `remote_views` is returned.
    pub fn handle_open_terminal_response(
        &mut self,
        id: TerminalId,
        window: WindowId,
        response: Result<OpenTerminalResponse, ShareError>,
    ) -> (r: Result<Option<usize>, ShareError>)
        ensures
            final(self).role == old(self).role,
            Self::host_side_unchanged(*old(self), *final(self)),
            final(self).terminals.remote_ids == old(self).terminals.remote_ids,
            old(self).wf() ==> final(self).wf(),
            ({
                let pa = (PendingAttach { id, window });
                if !old(self).pending_attaches@.contains(pa) {
                    &&& r == Ok::<Option<usize>, ShareError>(None)
                    &&& final(self).remote_views == old(self).remote_views
                    &&& final(self).pending_attaches == old(self).pending_attaches
                } else {
                    &&& final(self).pending_attaches@
                        == old(self).pending_attaches@.remove_value(pa)
                    &&& match response {
                        Err(e) => r == Err::<Option<usize>, ShareError>(e)
                            && final(self).remote_views == old(self).remote_views,
                        Ok(payload) => {
                            &&& r == Ok::<Option<usize>, ShareError>(
                                Some(old(self).remote_views@.len() as usize),
                            )
                            &&& final(self).remote_views@.len()
                                == old(self).remote_views@.len() + 1
                            &&& final(self).remote_views@.drop_last()
                                == old(self).remote_views@
                            &&& ({
                                let v = final(self).remote_views@.last();
                                &&& v.id == id
                                &&& v.window == window
                                &&& v.vte_state == payload.vte_state
                                &&& v.last_content == payload.visible_terminal_cells
                            })
                        },
                    }
                }
            }),
    {
        let pending = self.find_pending(id, window);
        match pending {
            None => {
                proof {
                    old(self).pending_attaches@.index_of_first_ensures(
                        (PendingAttach { id, window }),
                    );
                }
                Ok(None)
            },
            Some(k) => {
                self.pending_attaches.remove(k);
                proof {
                    let pa = (PendingAttach { id, window });
                    assert(old(self).pending_attaches@[k as int] == pa);
                    assert(old(self).pending_attaches@.contains(pa));
                    lemma_first_match_is_removed(old(self).pending_attaches@, pa, k as int);
                }
                match response {
                    Err(e) => Err(e),
                    Ok(payload) => {
                        let view = RemoteTerminalView {
                            id,
                            window,
                            vte_state: payload.vte_state,
                            last_content: payload.visible_terminal_cells,
                        };
                        let idx: usize = self.remote_views.len();
                        self.remote_views.push(view);
                        proof {
                            assert(self.remote_views@.drop_last()
                                =~= old(self).remote_views@);
                        }
                        Ok(Some(idx))
                    },
                }
            },
        }
    }

    /// Guest side: the first still-pending attach for this terminal and
    /// window, if any.
    fn find_pending(&self, id: TerminalId, window: WindowId) -> (r: Option<usize>)
        ensures
            match r {
                Some(k) => {
                    &&& k < self.pending_attaches@.len()
                    &&& self.pending_attaches@[k as int] == (PendingAttach { id, window })
                    &&& forall|m: int| 0 <= m < k
                        ==> self.pending_attaches@[m] != (PendingAttach { id, window })
                },
                None => !self.pending_attaches@.contains((PendingAttach { id, window })),
            },
    {
        let n: usize = self.pending_attaches.len();
        let mut i: usize = 0;
        while i < n
            invariant
                n == self.pending_attaches@.len(),
                i <= n,
                forall|m: int| 0 <= m < i
                    ==> self.pending_attaches@[m] != (PendingAttach { id, window }),
            decreases n - i,
        {
            let p = self.pending_attaches[i];
            if p.id == id && p.window == window {
                return Some(i);
            }
            i = i + 1;
        }
        None
    }
}

/// The views that survive tearing down one window.
pub open spec fn views_without_window(
    s: Seq<RemoteTerminalView>,
    window: WindowId,
) -> Seq<RemoteTerminalView> {
    s.filter(|v: RemoteTerminalView| v.window != window)
}

/// The pending attaches that survive tearing down one window.
pub open spec fn pending_without_window(
    s: Seq<PendingAttach>,
    window: WindowId,
) -> Seq<PendingAttach> {
    s.filter(|p: PendingAttach| p.window != window)
}

impl Project {
    /// Host side, the frame synchronizer: the engine produced a new screen
    /// state for one terminal. The host's own cached copy is replaced —
    /// local rendering and observation read it from there — and, if the
    /// project is shared, the frame is pushed to the transport for fan-out
    /// to every attached view. Fire-and-forget: no acknowledgement exists,
    /// and a frame for a terminal destroyed in the meantime is dropped
    /// silently.
    pub fn sync_terminal_frame(
        &mut self,
        id: TerminalId,
        vte_state: Vec<u8>,
        content: ScreenState,
    ) -> (applied: bool)
        requires
            old(self).wf(),
        ensures
            final(self).wf(),
            final(self).role == old(self).role,
            Self::guest_side_unchanged(*old(self), *final(self)),
            final(self).id_alloc == old(self).id_alloc,
            applied == old(self).live_ids().contains(id),
            final(self).live_ids() == old(self).live_ids(),
            !applied ==> Self::host_side_unchanged(*old(self), *final(self)),
            applied ==> ({
                let k = old(self).live_ids().index_of(id);
                let pre = old(self).terminals.local_handles@;
                let post = final(self).terminals.local_handles@;
                &&& post.len() == pre.len()
                &&& forall|m: int| 0 <= m < pre.len() && m != k ==> post[m] == pre[m]
                &&& post[k].id == id
                &&& post[k].window == pre[k].window
                &&& post[k].working_directory == pre[k].working_directory
                &&& post[k].vte_state == vte_state
                &&& post[k].last_content == content
                &&& match old(self).role {
                    ProjectRole::SharedHost { project_id } => {
                        &&& final(self).outgoing@.len() == old(self).outgoing@.len() + 1
                        &&& final(self).outgoing@.drop_last() == old(self).outgoing@
                        &&& is_frame_broadcast(final(self).outgoing@.last(), id, content@)
                    },
                    _ => final(self).outgoing == old(self).outgoing,
                }
            }),
    {
        match self.lookup(id) {
            None => false,
            Some(i) => {
                proof {
                    assert(old(self).live_ids()[i as int] == id);
                    assert(old(self).live_ids().contains(id));
                    let w = old(self).live_ids().index_of(id);
                    assert(old(self).live_ids()[w] == id);
                    if w != i as int {
                        assert(old(self).terminals.local_handles@[w].id
                            == old(self).terminals.local_handles@[i as int].id);
                    }
                }
                let role = self.role;
                if let ProjectRole::SharedHost { project_id } = role {
                    let frame_content = content.duplicate();
                    let mut t = self.terminals.local_handles.remove(i);
                    t.vte_state = vte_state;
                    t.last_content = content;
                    self.terminals.local_handles.insert(i, t);
                    self.outgoing.push(HostBroadcast::Frame(TerminalFrame {
                        id,
                        content: frame_content,
                    }));
                    proof {
                        assert(self.outgoing@.drop_last() =~= old(self).outgoing@);
                    }
                } else {
                    let mut t = self.terminals.local_handles.remove(i);
                    t.vte_state = vte_state;
                    t.last_content = content;
                    self.terminals.local_handles.insert(i, t);
                }
                proof {
                    let pre = old(self).terminals.local_handles@;
                    let post = self.terminals.local_handles@;
                    assert(post =~= pre.update(i as int, post[i as int]));
                    assert(self.live_ids() =~= old(self).live_ids());
                    assert forall|a: int, b: int| 0 <= a < b < post.len()
                        implies post[a].id != post[b].id by {
                        assert(post[a].id == pre[a].id);
                        assert(post[b].id == pre[b].id);
                    }
                    assert forall|a: int| 0 <= a < post.len()
                        implies self.id_alloc.allocated@.contains(post[a].id) by {
                        assert(post[a].id == pre[a].id);
                    }
                }
                true
            },
        }
    }

    /// Host side: input arriving over the shared input path — the host's
    /// own window and every guest view feed keystrokes through here alike.
    /// The bytes belong to the external engine; this only answers whether
    /// the terminal is still live, so the caller knows to feed them on. The
    /// resulting screen change flows back through the frame synchronizer.
    pub fn handle_terminal_input(&self, envelope: &TerminalInput) -> (r: Result<
        (),
        ShareError,
    >)
        ensures
            match r {
                Ok(u) => self.live_ids().contains(envelope.id),
                Err(e) => {
                    &&& e == ShareError::NotFound
                    &&& !self.live_ids().contains(envelope.id)
                },
            },
    {
        match self.lookup(envelope.id) {
            None => Err(ShareError::NotFound),
            Some(i) => {
                proof {
                    assert(self.live_ids()[i as int] == envelope.id);
                }
                Ok(())
            },
        }
    }

    /// Guest side: apply a frame broadcast by replacing the last content of
    /// every view attached to that terminal — never by patching — so an
    /// out-of-order or dropped frame is superseded cleanly by the next one.
    /// A frame for a terminal nobody here is attached to is discarded
    /// silently.
    pub fn handle_frame_update(&mut self, frame: &TerminalFrame)
        ensures
            final(self).role == old(self).role,
            Self::host_side_unchanged(*old(self), *final(self)),
            final(self).terminals.remote_ids == old(self).terminals.remote_ids,
            final(self).pending_attaches == old(self).pending_attaches,
            old(self).wf() ==> final(self).wf(),
            final(self).remote_views@.len() == old(self).remote_views@.len(),
            forall|m: int|
                #![trigger final(self).remote_views@[m]]
                0 <= m < old(self).remote_views@.len() ==> ({
                let ov = old(self).remote_views@[m];
                let nv = final(self).remote_views@[m];
                &&& nv.id == ov.id
                &&& nv.window == ov.window
                &&& nv.vte_state == ov.vte_state
                &&& (ov.id == frame.id ==> nv.last_content@ == frame.content@)
                &&& (ov.id != frame.id ==> nv.last_content == ov.last_content)
            }),
    {
        let n: usize = self.remote_views.len();
        let mut i: usize = 0;
        while i < n
            invariant
                n == old(self).remote_views@.len(),
                i <= n,
                self.role == old(self).role,
                self.terminals == old(self).terminals,
                self.id_alloc == old(self).id_alloc,
                self.outgoing == old(self).outgoing,
                self.pending_attaches == old(self).pending_attaches,
                self.remote_views@.len() == n,
                forall|m: int| i <= m < n
                    ==> self.remote_views@[m] == old(self).remote_views@[m],
                forall|m: int|
                    #![trigger self.remote_views@[m]]
                    0 <= m < i ==> ({
                    let ov = old(self).remote_views@[m];
                    let nv = self.remote_views@[m];
                    &&& nv.id == ov.id
                    &&& nv.window == ov.window
                    &&& nv.vte_state == ov.vte_state
                    &&& (ov.id == frame.id ==> nv.last_content@ == frame.content@)
                    &&& (ov.id != frame.id ==> nv.last_content == ov.last_content)
                }),
            decreases n - i,
        {
            if self.remote_views[i].id == frame.id {
                let ghost cur = self.remote_views@;
                let mut v = self.remote_views.remove(i);
                v.last_content = frame.content.duplicate();
                self.remote_views.insert(i, v);
                proof {
                    assert(self.remote_views@
                        =~= cur.update(i as int, self.remote_views@[i as int]));
                }
            }
            i = i + 1;
        }
    }

    /// Guest side: the window or session was torn down. Every view bound to
    /// it dies with it, and any attach still in flight for it is forgotten,
    /// so the eventual response is discarded without error — a normal race,
    /// not a fault.
    #[verifier::loop_isolation(false)]
    pub fn close_window(&mut self, window: WindowId)
        ensures
            final(self).role == old(self).role,
            Self::host_side_unchanged(*old(self), *final(self)),
            final(self).terminals.remote_ids == old(self).terminals.remote_ids,
            old(self).wf() ==> final(self).wf(),
            final(self).remote_views@ == views_without_window(old(self).remote_views@, window),
            final(self).pending_attaches@ == pending_without_window(
                old(self).pending_attaches@,
                window,
            ),
    {
        let ghost pred = |v: RemoteTerminalView| v.window != window;
        let ghost orig = self.remote_views@;
        let ghost mut j: int = 0;
        let mut i: usize = 0;
        while i < self.remote_views.len()
            invariant
                0 <= j <= orig.len(),
                i as int == orig.take(j).filter(pred).len(),
                self.remote_views@ == orig.take(j).filter(pred) + orig.skip(j),
                self.role == old(self).role,
                self.terminals == old(self).terminals,
                self.id_alloc == old(self).id_alloc,
                self.outgoing == old(self).outgoing,
                self.pending_attaches == old(self).pending_attaches,
            decreases orig.len() - j,
        {
            proof {
                assert(orig.skip(j).len() > 0);
                assert(self.remote_views@[i as int] == orig.skip(j)[0]);
                assert(orig.skip(j)[0] == orig[j]);
                assert(orig.take(j + 1).drop_last() =~= orig.take(j));
                assert(orig.take(j + 1).last() == orig[j]);
                assert(orig.skip(j) =~= seq![orig[j]] + orig.skip(j + 1));
            }
            if self.remote_views[i].window != window {
                proof {
                    reveal(Seq::filter);
                    assert(orig.take(j + 1).filter(pred)
                        =~= orig.take(j).filter(pred).push(orig[j]));
                    assert(orig.take(j).filter(pred).push(orig[j]) + orig.skip(j + 1)
                        =~= orig.take(j).filter(pred) + orig.skip(j));
                    j = j + 1;
                }
                i = i + 1;
            } else {
                self.remote_views.remove(i);
                proof {
                    reveal(Seq::filter);
                    assert(orig.take(j + 1).filter(pred) =~= orig.take(j).filter(pred));
                    assert(self.remote_views@
                        =~= orig.take(j + 1).filter(pred) + orig.skip(j + 1));
                    j = j + 1;
                }
            }
        }
        proof {
            assert(orig.skip(j).len() == 0);
            assert(j == orig.len());
            assert(orig.take(j) =~= orig);
            assert(self.remote_views@ =~= orig.filter(pred));
            assert(pred =~= (|v: RemoteTerminalView| v.window != window));
            assert(views_without_window(old(self).remote_views@, window)
                == orig.filter(pred));
        }
        let ghost ppred = |p: PendingAttach| p.window != window;
        let ghost porig = self.pending_attaches@;
        let ghost mut pj: int = 0;
        let mut pi: usize = 0;
        while pi < self.pending_attaches.len()
            invariant
                0 <= pj <= porig.len(),
                pi as int == porig.take(pj).filter(ppred).len(),
                self.pending_attaches@ == porig.take(pj).filter(ppred) + porig.skip(pj),
                self.role == old(self).role,
                self.terminals == old(self).terminals,
                self.id_alloc == old(self).id_alloc,
                self.outgoing == old(self).outgoing,
                self.remote_views@ == views_without_window(old(self).remote_views@, window),
            decreases porig.len() - pj,
        {
            proof {
                assert(porig.skip(pj).len() > 0);
                assert(self.pending_attaches@[pi as int] == porig.skip(pj)[0]);
                assert(porig.skip(pj)[0] == porig[pj]);
                assert(porig.take(pj + 1).drop_last() =~= porig.take(pj));
                assert(porig.take(pj + 1).last() == porig[pj]);
                assert(porig.skip(pj) =~= seq![porig[pj]] + porig.skip(pj + 1));
            }
            if self.pending_attaches[pi].window != window {
                proof {
                    reveal(Seq::filter);
                    assert(porig.take(pj + 1).filter(ppred)
                        =~= porig.take(pj).filter(ppred).push(porig[pj]));
                    assert(porig.take(pj).filter(ppred).push(porig[pj]) + porig.skip(pj + 1)
                        =~= porig.take(pj).filter(ppred) + porig.skip(pj));
                    pj = pj + 1;
                }
                pi = pi + 1;
            } else {
                self.pending_attaches.remove(pi);
                proof {
                    reveal(Seq::filter);
                    assert(porig.take(pj + 1).filter(ppred) =~= porig.take(pj).filter(ppred));
                    assert(self.pending_attaches@
                        =~= porig.take(pj + 1).filter(ppred) + porig.skip(pj + 1));
                    pj = pj + 1;
                }
            }
        }
        proof {
            assert(porig.skip(pj).len() == 0);
            assert(pj == porig.len());
            assert(porig.take(pj) =~= porig);
            assert(self.pending_attaches@ =~= porig.filter(ppred));
            assert(ppred =~= (|p: PendingAttach| p.window != window));
            assert(pending_without_window(old(self).pending_attaches@, window)
                == porig.filter(ppred));
        }
    }
}

/// Whether a directory holds an identifier.
pub fn contains_id(v: &Vec<TerminalId>, id: TerminalId) -> (r: bool)
    ensures
        r == v@.contains(id),
{
    let n: usize = v.len();
    let mut i: usize = 0;
    while i < n
        invariant
            n == v@.len(),
            i <= n,
            forall|m: int| 0 <= m < i ==> v@[m] != id,
        decreases n - i,
    {
        if v[i] == id {
            return true;
        }
        i = i + 1;
    }
    false
}

/// A sequence with its first occurrence of `x` at position `k` loses exactly
/// that position under `remove_value`.
pub proof fn lemma_first_match_is_removed<A>(s: Seq<A>, x: A, k: int)
    requires
        0 <= k < s.len(),
        s[k] == x,
        forall|m: int| 0 <= m < k ==> s[m] != x,
    ensures
        s.remove_value(x) == s.remove(k),
{
    s.index_of_first_ensures(x);
    let index = s.index_of_first(x).unwrap();
    if index < k {
        assert(s[index] != x);
    }
    if k < index {
        assert(s[k] != x);
    }
}

} // verus!
