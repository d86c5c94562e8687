use dash2::session::{Action, LockEvent, LockSession, SessionState};
use dash2::surface::SurfacePhase;

fn locked_session(priority: Vec<&str>) -> LockSession {
    let mut s = LockSession::new(priority.into_iter().map(String::from).collect());
    let acts = s.begin_lock(true);
    assert!(acts.is_empty());
    let acts = s.apply_event(LockEvent::LockConfirmed);
    assert!(acts.is_empty());
    assert_eq!(s.state, SessionState::Locked);
    s
}

#[test]
fn priority_election_follows_hotplug() {
    // Priority ["DP-1", "DP-2"]; DP-2 and HDMI-1 connect in that order.
    let mut s = locked_session(vec!["DP-1", "DP-2"]);

    let acts = s.apply_event(LockEvent::OutputAdded { id: 1, name: String::from("DP-2") });
    assert_eq!(
        acts,
        vec![
            Action::CreateUi { id: 1 },
            Action::EmitPrimary { id: 1, is_primary: true },
            Action::GrabFocus { id: 1 },
        ]
    );
    assert_eq!(s.primary, Some(0));

    let acts = s.apply_event(LockEvent::OutputAdded { id: 2, name: String::from("HDMI-1") });
    assert_eq!(
        acts,
        vec![
            Action::CreateUi { id: 2 },
            Action::EmitPrimary { id: 2, is_primary: false },
            Action::EmitPrimary { id: 1, is_primary: true },
            Action::GrabFocus { id: 1 },
        ]
    );
    // Primary is DP-2: the first priority entry with an active match.
    assert_eq!(s.primary, Some(0));

    // DP-2 is removed: HDMI-1 is the first remaining active surface.
    let acts = s.apply_event(LockEvent::OutputRemoved { id: 1 });
    assert_eq!(
        acts,
        vec![
            Action::CloseUi { id: 1 },
            Action::EmitPrimary { id: 2, is_primary: true },
            Action::GrabFocus { id: 2 },
        ]
    );
    assert_eq!(s.primary, Some(1));

    // DP-1 connects: it outranks HDMI-1 on the priority list.
    let acts = s.apply_event(LockEvent::OutputAdded { id: 3, name: String::from("DP-1") });
    assert_eq!(
        acts,
        vec![
            Action::CreateUi { id: 3 },
            Action::EmitPrimary { id: 2, is_primary: false },
            Action::EmitPrimary { id: 3, is_primary: true },
            Action::GrabFocus { id: 3 },
        ]
    );
    assert_eq!(s.primary, Some(2));
    assert_eq!(s.surfaces[2].output, 3);
}

#[test]
fn readding_priority_output_reelects_it() {
    let mut s = locked_session(vec!["DP-1"]);
    s.apply_event(LockEvent::OutputAdded { id: 7, name: String::from("DP-1") });
    assert_eq!(s.primary, Some(0));

    // Remove the only active output, then re-add one with the same name.
    s.apply_event(LockEvent::OutputRemoved { id: 7 });
    assert_eq!(s.primary, None);
    s.apply_event(LockEvent::OutputAdded { id: 8, name: String::from("DP-1") });
    assert_eq!(s.primary, Some(1));
    assert_eq!(s.surfaces[1].output, 8);
    assert!(s.surfaces[1].is_active);
}

#[test]
fn unsupported_lock_protocol_is_fatal() {
    let mut s = LockSession::new(vec![String::from("DP-1")]);
    let acts = s.begin_lock(false);
    assert_eq!(acts, vec![Action::Exit { code: 1 }]);
    assert_eq!(s.state, SessionState::Terminated);

    // Nothing is ever created or shown afterwards.
    let acts = s.apply_event(LockEvent::OutputAdded { id: 1, name: String::from("DP-1") });
    assert!(acts.is_empty());
    let acts = s.apply_event(LockEvent::Configure { id: 1, width: 800, height: 600 });
    assert!(acts.is_empty());
    assert!(s.surfaces.is_empty());
}

#[test]
fn surface_hidden_until_configure() {
    let mut s = locked_session(vec![]);
    s.apply_event(LockEvent::OutputAdded { id: 1, name: String::from("eDP-1") });
    assert_eq!(s.surfaces[0].phase, SurfacePhase::Created);
    assert!(!s.surfaces[0].configured);

    let acts = s.apply_event(LockEvent::SurfaceRealized { id: 1 });
    assert_eq!(acts, vec![Action::BindLockSurface { id: 1 }]);
    assert_eq!(s.surfaces[0].phase, SurfacePhase::ProtocolBound);
    assert!(!s.surfaces[0].configured);

    // A second realize is a no-op: the protocol surface is bound once.
    let acts = s.apply_event(LockEvent::SurfaceRealized { id: 1 });
    assert!(acts.is_empty());
    assert_eq!(s.surfaces[0].phase, SurfacePhase::ProtocolBound);

    let acts = s.apply_event(LockEvent::Configure { id: 1, width: 1920, height: 1080 });
    assert_eq!(
        acts,
        vec![
            Action::SetSize { id: 1, width: 1920, height: 1080 },
            Action::ShowUi { id: 1 },
            Action::EmitPrimary { id: 1, is_primary: true },
            Action::GrabFocus { id: 1 },
        ]
    );
    assert_eq!(s.surfaces[0].phase, SurfacePhase::Visible);
    assert!(s.surfaces[0].configured);
}

#[test]
fn configure_before_realize_is_ignored() {
    let mut s = locked_session(vec![]);
    s.apply_event(LockEvent::OutputAdded { id: 1, name: String::from("eDP-1") });
    let acts = s.apply_event(LockEvent::Configure { id: 1, width: 640, height: 480 });
    // No size or show for an unbound surface; election effects only.
    assert_eq!(
        acts,
        vec![
            Action::EmitPrimary { id: 1, is_primary: true },
            Action::GrabFocus { id: 1 },
        ]
    );
    assert_eq!(s.surfaces[0].phase, SurfacePhase::Created);
    assert!(!s.surfaces[0].configured);
}

#[test]
fn ui_events_alone_never_terminate() {
    let mut s = locked_session(vec![]);
    s.apply_event(LockEvent::OutputAdded { id: 1, name: String::from("eDP-1") });
    s.apply_event(LockEvent::WindowReady);
    s.apply_event(LockEvent::OutputUpdated { id: 1, name: String::from("eDP-1b") });
    s.apply_event(LockEvent::Configure { id: 1, width: 1, height: 1 });
    s.apply_event(LockEvent::OutputRemoved { id: 1 });
    s.apply_event(LockEvent::WindowReady);
    assert_eq!(s.state, SessionState::Locked);
    assert!(s.has_lock);
}

#[test]
fn unlock_signal_closes_everything_and_exits() {
    let mut s = locked_session(vec![]);
    for id in [1u64, 2u64] {
        s.apply_event(LockEvent::OutputAdded { id, name: format!("OUT-{id}") });
        s.apply_event(LockEvent::SurfaceRealized { id });
        s.apply_event(LockEvent::Configure { id, width: 800, height: 600 });
    }
    assert_eq!(s.surfaces[0].phase, SurfacePhase::Visible);
    assert_eq!(s.surfaces[1].phase, SurfacePhase::Visible);

    let acts = s.apply_event(LockEvent::UnlockSignal);
    assert_eq!(
        acts,
        vec![
            Action::CloseUi { id: 1 },
            Action::CloseUi { id: 2 },
            Action::ReleaseLock,
            Action::RoundTrip,
            Action::Exit { code: 0 },
        ]
    );
    assert_eq!(s.state, SessionState::Terminated);
    assert!(!s.has_lock);
    assert!(!s.surfaces[0].is_active);
    assert!(!s.surfaces[1].is_active);

    // Terminated absorbs everything.
    let acts = s.apply_event(LockEvent::UnlockSignal);
    assert!(acts.is_empty());
}

#[test]
fn unlock_signal_without_lock_is_ignored() {
    let mut s = LockSession::new(vec![]);
    let acts = s.apply_event(LockEvent::UnlockSignal);
    assert!(acts.is_empty());
    assert_eq!(s.state, SessionState::Locking);
}

#[test]
fn compositor_revocation_terminates() {
    let mut s = locked_session(vec![]);
    s.apply_event(LockEvent::OutputAdded { id: 1, name: String::from("eDP-1") });
    let acts = s.apply_event(LockEvent::Finished);
    assert_eq!(acts, vec![Action::Exit { code: 0 }]);
    assert_eq!(s.state, SessionState::Terminated);
}

#[test]
fn readd_same_output_refreshes_name_only() {
    let mut s = locked_session(vec![]);
    s.apply_event(LockEvent::OutputAdded { id: 5, name: String::from("before") });
    let acts = s.apply_event(LockEvent::OutputAdded { id: 5, name: String::from("after") });
    // The record is renamed in place, no second surface is created.
    assert_eq!(s.surfaces.len(), 1);
    assert_eq!(s.surfaces[0].output, 5);
    assert_eq!(s.surfaces[0].output_name, "after");
    assert_eq!(
        acts,
        vec![
            Action::EmitPrimary { id: 5, is_primary: true },
            Action::GrabFocus { id: 5 },
        ]
    );
}

#[test]
fn window_ready_sets_gate_and_reelects() {
    let mut s = locked_session(vec![]);
    assert!(!s.ready);
    s.apply_event(LockEvent::OutputAdded { id: 1, name: String::from("eDP-1") });
    let acts = s.apply_event(LockEvent::WindowReady);
    assert!(s.ready);
    assert_eq!(
        acts,
        vec![
            Action::EmitPrimary { id: 1, is_primary: true },
            Action::GrabFocus { id: 1 },
        ]
    );
}

#[test]
fn inactive_surfaces_are_not_elected() {
    let mut s = locked_session(vec!["GONE"]);
    s.apply_event(LockEvent::OutputAdded { id: 1, name: String::from("GONE") });
    s.apply_event(LockEvent::OutputAdded { id: 2, name: String::from("HERE") });
    assert_eq!(s.primary, Some(0));
    s.apply_event(LockEvent::OutputRemoved { id: 1 });
    // The destroyed surface still matches the priority name but is inactive.
    assert_eq!(s.primary, Some(1));
}
