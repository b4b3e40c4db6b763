//! End-to-end protocol scenarios: one host, one or two guests, and an
//! in-memory transport pump standing in for the external RPC layer.

use terminal_share::messages::{HostBroadcast, ShareError, TerminalInput, UpdateTerminals};
use terminal_share::project::{Project, ProjectRole};
use terminal_share::screen::ScreenState;

/// Deliver every queued host broadcast to one guest, in order.
fn deliver_all(host: &mut Project, guest: &mut Project) {
    let msgs: Vec<HostBroadcast> = host.outgoing.drain(..).collect();
    for m in msgs {
        match m {
            HostBroadcast::Directory(u) => guest.handle_update_terminals(u),
            HostBroadcast::Frame(f) => guest.handle_frame_update(&f),
        }
    }
}

/// Deliver every queued host broadcast to both guests, in order.
fn deliver_all_two(host: &mut Project, guest_a: &mut Project, guest_b: &mut Project) {
    let msgs: Vec<HostBroadcast> = host.outgoing.drain(..).collect();
    for m in msgs {
        match m {
            HostBroadcast::Directory(u) => {
                guest_a.handle_update_terminals(u.clone());
                guest_b.handle_update_terminals(u);
            }
            HostBroadcast::Frame(f) => {
                guest_a.handle_frame_update(&f);
                guest_b.handle_frame_update(&f);
            }
        }
    }
}

#[test]
fn test_terminal_sharing() {
    // Two participants share one project: "user_a" hosts it, "user_b"
    // follows it as a guest.
    let project_id: u64 = 1;
    let mut project_a = Project::new(ProjectRole::SharedHost { project_id });
    let mut project_b = Project::new(ProjectRole::Guest { project_id });
    let window_a: u64 = 1;
    let window_b: u64 = 2;

    // Build a terminal in A, rooted at "/root".
    let terminal_id = project_a
        .create_terminal(Some(b"/root".to_vec()), window_a)
        .unwrap();

    // Assert that B sees the terminal that A created once the transport
    // has delivered the directory update.
    deliver_all(&mut project_a, &mut project_b);
    let shared_terminals_b = project_b.shared_terminals().to_vec();
    assert_eq!(shared_terminals_b.len(), 1);

    // Open the terminal in B.
    let request = project_b
        .open_remote_terminal(project_id, shared_terminals_b[0], window_b)
        .unwrap();
    let response = project_a.handle_open_terminal(request);
    let view_index = project_b
        .handle_open_terminal_response(shared_terminals_b[0], window_b, response)
        .unwrap()
        .unwrap();

    // Type a few characters in A and wait for the terminal to produce a
    // new frame (the engine echo is simulated).
    const A_TYPING: &str = "--ABC--";
    let input = TerminalInput {
        project_id,
        id: terminal_id,
        bytes: A_TYPING.as_bytes().to_vec(),
    };
    project_a.handle_terminal_input(&input).unwrap();
    let echoed = ScreenState {
        cells: A_TYPING.as_bytes().to_vec(),
    };
    project_a.sync_terminal_frame(terminal_id, Vec::new(), echoed);
    assert!(
        project_a.local_terminal_handles()[0]
            .last_content
            .contains_text(A_TYPING.as_bytes()),
        "Terminal a should have echoed content by now"
    );

    // Run the transport so B can see the frame.
    deliver_all(&mut project_a, &mut project_b);

    // Assert that A and B's terminal have the same content.
    assert_eq!(
        project_a.local_terminal_handles()[0].last_content.cells,
        project_b.remote_views[view_index].last_content.cells,
    );
}

#[test]
fn test_guest_input_round_trip() {
    let project_id: u64 = 5;
    let mut host = Project::new(ProjectRole::SharedHost { project_id });
    let mut guest = Project::new(ProjectRole::Guest { project_id });
    let id = host.create_terminal(None, 1).unwrap();
    deliver_all(&mut host, &mut guest);

    let request = guest.open_remote_terminal(project_id, id, 2).unwrap();
    let response = host.handle_open_terminal(request);
    let view_index = guest
        .handle_open_terminal_response(id, 2, response)
        .unwrap()
        .unwrap();

    // Host types; after quiescence the guest's view holds the echo.
    host.handle_terminal_input(&TerminalInput {
        project_id,
        id,
        bytes: b"--ABC--".to_vec(),
    })
    .unwrap();
    host.sync_terminal_frame(
        id,
        Vec::new(),
        ScreenState {
            cells: b"--ABC--".to_vec(),
        },
    );
    deliver_all(&mut host, &mut guest);
    assert!(guest.remote_views[view_index]
        .last_content
        .contains_text(b"--ABC--"));

    // Guest types into its view: nothing changes locally, the input goes
    // to the host.
    let before = guest.remote_views[view_index].last_content.cells.clone();
    let forwarded = guest.remote_views[view_index].input(project_id, b"++XYZ++".to_vec());
    assert_eq!(guest.remote_views[view_index].last_content.cells, before);
    assert_eq!(forwarded.id, id);

    host.handle_terminal_input(&forwarded).unwrap();
    host.sync_terminal_frame(
        id,
        Vec::new(),
        ScreenState {
            cells: b"--ABC--++XYZ++".to_vec(),
        },
    );
    deliver_all(&mut host, &mut guest);

    let host_cells = &host.local_terminal_handles()[0].last_content;
    assert!(host_cells.contains_text(b"++XYZ++"));
    assert!(guest.remote_views[view_index]
        .last_content
        .contains_text(b"++XYZ++"));
    assert_eq!(
        host.local_terminal_handles()[0].last_content.cells,
        guest.remote_views[view_index].last_content.cells,
    );
}

#[test]
fn test_attach_unknown_id_fails_fast() {
    // Attaching to an id the cached directory never held fails locally
    // with NotFound and no view is created.
    let mut guest = Project::new(ProjectRole::Guest { project_id: 3 });
    let r = guest.open_remote_terminal(3, 42, 1);
    assert_eq!(r.unwrap_err(), ShareError::NotFound);
    assert_eq!(guest.remote_views.len(), 0);
    assert_eq!(guest.pending_attaches.len(), 0);
}

#[test]
fn test_attach_removed_id() {
    // A guest attaches to an id that was removed one update earlier: the
    // response is NotFound and no view is created.
    let project_id: u64 = 9;
    let mut host = Project::new(ProjectRole::SharedHost { project_id });
    let mut guest = Project::new(ProjectRole::Guest { project_id });
    let id = host.create_terminal(None, 1).unwrap();
    deliver_all(&mut host, &mut guest);
    assert_eq!(guest.shared_terminals(), &[id]);

    // The terminal dies; the guest has not applied the removal update yet
    // and asks with stale knowledge.
    host.handle_terminal_released(id);
    let request = guest.open_remote_terminal(project_id, id, 2).unwrap();
    let response = host.handle_open_terminal(request);
    assert_eq!(response.clone().unwrap_err(), ShareError::NotFound);
    let surfaced = guest.handle_open_terminal_response(id, 2, response);
    assert_eq!(surfaced.unwrap_err(), ShareError::NotFound);
    assert_eq!(guest.remote_views.len(), 0);

    // Once the removal update arrives, the same attempt fails fast
    // locally, before anything is sent.
    deliver_all(&mut host, &mut guest);
    assert_eq!(guest.shared_terminals().len(), 0);
    let r = guest.open_remote_terminal(project_id, id, 2);
    assert_eq!(r.unwrap_err(), ShareError::NotFound);
    assert_eq!(guest.remote_views.len(), 0);
}

#[test]
fn test_stale_destroy_keeps_views_alive() {
    // Destroying a terminal a guest is attached to removes the id from
    // subsequent directory updates and leaves the outstanding view intact.
    let project_id: u64 = 11;
    let mut host = Project::new(ProjectRole::SharedHost { project_id });
    let mut guest = Project::new(ProjectRole::Guest { project_id });
    let id = host.create_terminal(None, 1).unwrap();
    deliver_all(&mut host, &mut guest);
    let request = guest.open_remote_terminal(project_id, id, 2).unwrap();
    let response = host.handle_open_terminal(request);
    let view_index = guest
        .handle_open_terminal_response(id, 2, response)
        .unwrap()
        .unwrap();

    host.sync_terminal_frame(
        id,
        Vec::new(),
        ScreenState {
            cells: b"hello".to_vec(),
        },
    );
    deliver_all(&mut host, &mut guest);
    assert!(guest.remote_views[view_index].last_content.contains_text(b"hello"));

    host.handle_terminal_released(id);
    deliver_all(&mut host, &mut guest);

    // The id is gone from the directory, the view survives with its last
    // contents until its window is torn down.
    assert!(!guest.shared_terminals().contains(&id));
    assert_eq!(guest.remote_views.len(), 1);
    assert!(guest.remote_views[view_index].last_content.contains_text(b"hello"));

    // Tearing the window down removes the view.
    guest.close_window(2);
    assert_eq!(guest.remote_views.len(), 0);
}

#[test]
fn test_directory_convergence_after_missed_updates() {
    // Whatever updates a guest misses, applying the host's most recent
    // snapshot makes its directory equal to the host's live set.
    let project_id: u64 = 2;
    let mut host = Project::new(ProjectRole::SharedHost { project_id });
    let mut flaky_guest = Project::new(ProjectRole::Guest { project_id });
    let mut steady_guest = Project::new(ProjectRole::Guest { project_id });

    let a = host.create_terminal(None, 1).unwrap();
    let b = host.create_terminal(None, 1).unwrap();
    let c = host.create_terminal(None, 1).unwrap();
    host.handle_terminal_released(b);

    // The steady guest sees everything; the flaky one loses all but the
    // last update.
    let msgs: Vec<HostBroadcast> = host.outgoing.drain(..).collect();
    assert_eq!(msgs.len(), 4);
    for m in &msgs {
        if let HostBroadcast::Directory(u) = m {
            steady_guest.handle_update_terminals(u.clone());
        }
    }
    if let HostBroadcast::Directory(u) = msgs.last().unwrap() {
        flaky_guest.handle_update_terminals(u.clone());
    }

    let live: Vec<u64> = host.directory_snapshot();
    assert_eq!(live, vec![a, c]);
    assert_eq!(steady_guest.shared_terminals(), live.as_slice());
    assert_eq!(flaky_guest.shared_terminals(), live.as_slice());
}

#[test]
fn test_frame_convergence_after_dropped_frames() {
    // Frames replace wholesale, so only the last one per terminal counts:
    // a guest that missed intermediate frames still converges.
    let project_id: u64 = 6;
    let mut host = Project::new(ProjectRole::SharedHost { project_id });
    let mut guest = Project::new(ProjectRole::Guest { project_id });
    let id = host.create_terminal(None, 1).unwrap();
    deliver_all(&mut host, &mut guest);
    let request = guest.open_remote_terminal(project_id, id, 2).unwrap();
    let response = host.handle_open_terminal(request);
    guest
        .handle_open_terminal_response(id, 2, response)
        .unwrap()
        .unwrap();

    for text in [b"one".to_vec(), b"two".to_vec(), b"three".to_vec()] {
        host.sync_terminal_frame(id, Vec::new(), ScreenState { cells: text });
    }
    // The transport drops all but the most recent frame.
    let last = host
        .outgoing
        .drain(..)
        .filter_map(|m| match m {
            HostBroadcast::Frame(f) => Some(f),
            HostBroadcast::Directory(_) => None,
        })
        .last()
        .unwrap();
    guest.handle_frame_update(&last);

    assert_eq!(
        guest.remote_views[0].last_content.cells,
        host.local_terminal_handles()[0].last_content.cells,
    );
    assert_eq!(guest.remote_views[0].last_content.cells, b"three".to_vec());
}

#[test]
fn test_two_guests_converge() {
    let project_id: u64 = 12;
    let mut host = Project::new(ProjectRole::SharedHost { project_id });
    let mut guest_a = Project::new(ProjectRole::Guest { project_id });
    let mut guest_b = Project::new(ProjectRole::Guest { project_id });
    let id = host.create_terminal(None, 1).unwrap();
    host.sync_terminal_frame(
        id,
        Vec::new(),
        ScreenState {
            cells: b"shared".to_vec(),
        },
    );
    deliver_all_two(&mut host, &mut guest_a, &mut guest_b);
    assert_eq!(guest_a.shared_terminals(), guest_b.shared_terminals());
    assert_eq!(guest_a.shared_terminals(), host.directory_snapshot().as_slice());
}

#[test]
fn test_create_terminal_as_guest_is_role_error() {
    let mut guest = Project::new(ProjectRole::Guest { project_id: 8 });
    let r = guest.create_terminal(None, 1);
    assert_eq!(r.unwrap_err(), ShareError::RoleError);
    assert_eq!(guest.local_terminal_handles().len(), 0);
    assert!(guest.outgoing.is_empty());
}

#[test]
fn test_transport_failure_surfaced() {
    // A broken request/response channel is surfaced to the caller, not
    // retried; the pending attach is consumed, no view appears.
    let project_id: u64 = 4;
    let mut host = Project::new(ProjectRole::SharedHost { project_id });
    let mut guest = Project::new(ProjectRole::Guest { project_id });
    let id = host.create_terminal(None, 1).unwrap();
    deliver_all(&mut host, &mut guest);
    guest.open_remote_terminal(project_id, id, 2).unwrap();

    let surfaced = guest.handle_open_terminal_response(id, 2, Err(ShareError::TransportFailure));
    assert_eq!(surfaced.unwrap_err(), ShareError::TransportFailure);
    assert_eq!(guest.remote_views.len(), 0);
    assert_eq!(guest.pending_attaches.len(), 0);
}

#[test]
fn test_response_after_window_teardown_is_discarded() {
    // The window dies while the attach is in flight: the late response is
    // discarded without error and no view is created.
    let project_id: u64 = 10;
    let mut host = Project::new(ProjectRole::SharedHost { project_id });
    let mut guest = Project::new(ProjectRole::Guest { project_id });
    let id = host.create_terminal(None, 1).unwrap();
    deliver_all(&mut host, &mut guest);
    let request = guest.open_remote_terminal(project_id, id, 2).unwrap();
    let response = host.handle_open_terminal(request);

    guest.close_window(2);
    assert_eq!(guest.pending_attaches.len(), 0);

    let outcome = guest.handle_open_terminal_response(id, 2, response);
    assert_eq!(outcome.unwrap(), None);
    assert_eq!(guest.remote_views.len(), 0);
}

#[test]
fn test_no_duplicate_ids_across_lifetime() {
    // Identifiers stay pairwise distinct, also across destroys.
    let mut host = Project::new(ProjectRole::Local);
    let mut seen: Vec<u64> = Vec::new();
    for round in 0..3u64 {
        let id = host.create_terminal(None, round).unwrap();
        assert!(!seen.contains(&id));
        seen.push(id);
    }
    host.handle_terminal_released(seen[1]);
    let id = host.create_terminal(None, 7).unwrap();
    assert!(!seen.contains(&id));
    seen.push(id);
    let live = host.directory_snapshot();
    for i in 0..live.len() {
        for j in (i + 1)..live.len() {
            assert_ne!(live[i], live[j]);
        }
    }
}

#[test]
fn test_update_replaces_wholesale() {
    // A directory update replaces the cached copy; it never merges.
    let mut guest = Project::new(ProjectRole::Guest { project_id: 20 });
    guest.handle_update_terminals(UpdateTerminals {
        project_id: 20,
        terminals: vec![1, 2, 3],
    });
    assert_eq!(guest.shared_terminals(), &[1, 2, 3]);
    guest.handle_update_terminals(UpdateTerminals {
        project_id: 20,
        terminals: vec![7],
    });
    assert_eq!(guest.shared_terminals(), &[7]);
    guest.handle_update_terminals(UpdateTerminals {
        project_id: 20,
        terminals: Vec::new(),
    });
    assert_eq!(guest.shared_terminals().len(), 0);
}

#[test]
fn test_unshared_host_broadcasts_nothing() {
    let mut host = Project::new(ProjectRole::Local);
    let id = host.create_terminal(None, 1).unwrap();
    host.sync_terminal_frame(
        id,
        Vec::new(),
        ScreenState {
            cells: b"quiet".to_vec(),
        },
    );
    host.handle_terminal_released(id);
    assert!(host.outgoing.is_empty());
}

#[test]
fn test_input_to_released_terminal_is_not_found() {
    let mut host = Project::new(ProjectRole::Local);
    let id = host.create_terminal(None, 1).unwrap();
    host.handle_terminal_released(id);
    let r = host.handle_terminal_input(&TerminalInput {
        project_id: 0,
        id,
        bytes: b"x".to_vec(),
    });
    assert_eq!(r.unwrap_err(), ShareError::NotFound);
}

#[test]
fn test_roles() {
    let host = Project::new(ProjectRole::SharedHost { project_id: 33 });
    let guest = Project::new(ProjectRole::Guest { project_id: 33 });
    let local = Project::new(ProjectRole::Local);
    assert!(!host.is_remote());
    assert!(guest.is_remote());
    assert!(!local.is_remote());
    assert_eq!(host.remote_id(), Some(33));
    assert_eq!(guest.remote_id(), Some(33));
    assert_eq!(local.remote_id(), None);
}
