use dexterous_developer::capability::{
    CapabilityError, CapabilityRegistry, PhaseState, ReplacableType,
};
use dexterous_developer::message::{DylibRunnerMessage, DylibRunnerOutput, HostEvent, HostInbox};
use dexterous_developer::reload::{ReloadPhase, Reloader};

fn registry(names: &[&str]) -> CapabilityRegistry {
    let mut r = CapabilityRegistry::new();
    for n in names {
        r.register(n).unwrap();
    }
    r
}

#[test]
fn duplicate_names_are_refused() {
    let mut r = registry(&["A", "B"]);
    assert_eq!(
        r.register("A"),
        Err(CapabilityError::DuplicateName { name: "A".to_string() })
    );
    assert_eq!(r.len(), 2);
    assert!(r.contains("B"));
    assert!(!r.contains("C"));
    assert_eq!(r.register("C"), Ok(()));
    assert_eq!(r.name_at(2), "C");
}

#[test]
fn phase_state_round_trips() {
    for p in [PhaseState::Initial, PhaseState::Another, PhaseState::Third] {
        let bytes = p.to_vec().unwrap();
        assert_eq!(PhaseState::from_slice(&bytes), Ok(p));
    }
    assert_eq!(PhaseState::Third.to_vec().unwrap(), vec![2u8]);
    assert_eq!(PhaseState::get_type_name(), "PhaseState");
}

#[test]
fn phase_state_rejects_garbage_the_same_way_twice() {
    for bad in [&[][..], &[7u8][..], &[1u8, 0u8][..]] {
        let first = PhaseState::from_slice(bad);
        let second = PhaseState::from_slice(bad);
        assert_eq!(first, Err(CapabilityError::MalformedPayload));
        assert_eq!(first, second);
    }
}

#[test]
fn failed_acquire_keeps_the_active_module() {
    let mut r = Reloader::new(registry(&["A"]));
    assert!(r.begin(1));
    assert!(r.acquire_finished(true));
    r.state_captured(vec![Some(vec![1u8])]).unwrap();
    r.installed(vec![true]).unwrap();
    assert!(matches!(r.notify(), Some(DylibRunnerOutput::LoadedLib { build_id: 1 })));
    assert!(r.begin(2));
    assert!(!r.acquire_finished(false));
    assert_eq!(r.phase(), ReloadPhase::Idle);
    assert_eq!(r.active_build(), Some(1));
}

#[test]
fn restores_are_not_cross_wired() {
    let mut r = Reloader::new(registry(&["A", "B"]));
    assert!(r.begin(5));
    assert!(!r.begin(6));
    assert!(r.acquire_finished(true));
    let calls = r
        .state_captured(vec![Some(vec![1u8, 1]), Some(vec![2u8, 2, 2])])
        .unwrap();
    assert_eq!(calls.len(), 2);
    assert_eq!(calls[0].name, "A");
    assert_eq!(calls[0].bytes, vec![1u8, 1]);
    assert_eq!(calls[1].name, "B");
    assert_eq!(calls[1].bytes, vec![2u8, 2, 2]);
    assert_eq!(r.phase(), ReloadPhase::Installing { build_id: 5 });
}

#[test]
fn failed_capture_abandons_the_cycle() {
    let mut r = Reloader::new(registry(&["A", "B"]));
    r.begin(3);
    r.acquire_finished(true);
    assert!(r.state_captured(vec![Some(vec![1u8]), None]).is_none());
    assert_eq!(r.phase(), ReloadPhase::Idle);
    assert_eq!(r.active_build(), None);
    r.begin(4);
    r.acquire_finished(true);
    assert!(r.state_captured(vec![Some(vec![1u8])]).is_none());
    assert_eq!(r.phase(), ReloadPhase::Idle);
}

#[test]
fn partial_restore_is_reported() {
    let mut r = Reloader::new(registry(&["A", "B", "C"]));
    r.begin(9);
    r.acquire_finished(true);
    r.state_captured(vec![Some(vec![]), Some(vec![]), Some(vec![])]).unwrap();
    let failed = r.installed(vec![true, false]).unwrap();
    assert_eq!(failed, vec!["B".to_string(), "C".to_string()]);
    assert_eq!(r.active_build(), Some(9));
    assert_eq!(r.phase(), ReloadPhase::Notifying { build_id: 9 });
    assert!(matches!(r.notify(), Some(DylibRunnerOutput::LoadedLib { build_id: 9 })));
    assert_eq!(r.phase(), ReloadPhase::Idle);
    assert!(r.notify().is_none());
}

fn load(build_id: u32) -> DylibRunnerMessage {
    DylibRunnerMessage::LoadRootLib { build_id, local_path: format!("t/{build_id}.so") }
}

#[test]
fn loads_are_acknowledged_in_request_order() {
    let mut inbox = HostInbox::new();
    assert!(matches!(inbox.receive(load(7)), HostEvent::LoadQueued { build_id: 7 }));
    assert!(matches!(inbox.receive(load(8)), HostEvent::LoadQueued { build_id: 8 }));
    let next = inbox.next_load().unwrap();
    assert_eq!(next.build_id, 7);
    assert_eq!(next.local_path, "t/7.so");
    assert!(matches!(inbox.finish(true), Some(DylibRunnerOutput::LoadedLib { build_id: 7 })));
    assert!(matches!(inbox.finish(true), Some(DylibRunnerOutput::LoadedLib { build_id: 8 })));
    assert!(inbox.next_load().is_none());
}

#[test]
fn failed_load_is_not_acknowledged() {
    let mut inbox = HostInbox::new();
    inbox.receive(load(1));
    inbox.receive(load(2));
    assert!(inbox.finish(false).is_none());
    assert!(matches!(inbox.finish(true), Some(DylibRunnerOutput::LoadedLib { build_id: 2 })));
}

#[test]
fn other_messages_pass_through_and_close_ends_intake() {
    let mut inbox = HostInbox::new();
    let e = inbox.receive(DylibRunnerMessage::SerializedMessage { message: vec![1u8, 2] });
    assert!(matches!(e, HostEvent::Relay { ref message } if message == &vec![1u8, 2]));
    let e = inbox.receive(DylibRunnerMessage::AssetUpdated {
        local_path: "a/b.png".to_string(),
        name: "b".to_string(),
    });
    assert!(matches!(e, HostEvent::AssetChanged { ref name, .. } if name == "b"));
    assert!(matches!(
        inbox.receive(DylibRunnerMessage::ConnectionClosed),
        HostEvent::Closed { ref dropped } if dropped.is_empty()
    ));
    assert!(matches!(inbox.receive(load(3)), HostEvent::Ignored));
    assert!(inbox.next_load().is_none());
}

#[test]
fn closing_fails_the_queued_loads() {
    let mut inbox = HostInbox::new();
    inbox.receive(load(4));
    inbox.receive(load(5));
    let e = inbox.receive(DylibRunnerMessage::ConnectionClosed);
    assert!(matches!(e, HostEvent::Closed { ref dropped } if dropped == &vec![4u32, 5]));
    assert!(inbox.next_load().is_none());
    assert!(matches!(inbox.receive(load(6)), HostEvent::Ignored));
    assert!(inbox.next_load().is_none());
}
