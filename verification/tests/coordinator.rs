use live_docs::coordinator::{Action, BuildFailed, Coordinator, Phase, Signal};
use live_docs::watcher::{ChangeKind, WatchSignal};
use notify::event::{AccessKind, CreateKind, ModifyKind, RemoveKind};
use notify::{Event, EventKind};

fn change(kind: ChangeKind) -> Signal {
    Signal::Watch(WatchSignal::Change(kind))
}

fn building() -> Coordinator {
    let mut coordinator = Coordinator::new();
    assert_eq!(coordinator.handle(change(ChangeKind::Modify)), Action::StartBuild);
    coordinator
}

#[test]
fn starts_idle() {
    let coordinator = Coordinator::new();
    assert_eq!(coordinator.phase(), Phase::Idle);
    assert!(!coordinator.is_building());
    assert!(!coordinator.rebuild_owed());
}

#[test]
fn interesting_kinds_are_create_modify_remove() {
    assert!(ChangeKind::Create.is_interesting());
    assert!(ChangeKind::Modify.is_interesting());
    assert!(ChangeKind::Remove.is_interesting());
    assert!(!ChangeKind::Any.is_interesting());
    assert!(!ChangeKind::Access.is_interesting());
    assert!(!ChangeKind::Other.is_interesting());
}

#[test]
fn only_interesting_changes_ask_for_a_rebuild() {
    assert!(WatchSignal::Change(ChangeKind::Create).asks_for_rebuild());
    assert!(!WatchSignal::Change(ChangeKind::Access).asks_for_rebuild());
    assert!(!WatchSignal::Error.asks_for_rebuild());
}

#[test]
fn change_while_idle_starts_a_build() {
    for kind in [ChangeKind::Create, ChangeKind::Modify, ChangeKind::Remove] {
        let mut coordinator = Coordinator::new();
        assert_eq!(coordinator.handle(change(kind)), Action::StartBuild);
        assert_eq!(coordinator.phase(), Phase::Building);
        assert!(coordinator.is_building());
        assert!(!coordinator.rebuild_owed());
    }
}

#[test]
fn change_while_building_is_owed_not_started() {
    let mut coordinator = building();
    assert_eq!(coordinator.handle(change(ChangeKind::Create)), Action::Nothing);
    assert_eq!(coordinator.phase(), Phase::BuildingAndOwed);
    assert!(coordinator.is_building());
    assert!(coordinator.rebuild_owed());
}

#[test]
fn burst_during_a_build_yields_exactly_one_more_build() {
    for n in 1..20 {
        let mut coordinator = building();
        for i in 0..n {
            let kind = match i % 3 {
                0 => ChangeKind::Create,
                1 => ChangeKind::Modify,
                _ => ChangeKind::Remove,
            };
            assert_eq!(coordinator.handle(change(kind)), Action::Nothing);
        }
        assert_eq!(coordinator.phase(), Phase::BuildingAndOwed);
        assert_eq!(coordinator.on_build_finished(Ok(())), Action::StartBuild);
        assert_eq!(coordinator.phase(), Phase::Building);
        assert_eq!(coordinator.on_build_finished(Ok(())), Action::Nothing);
        assert_eq!(coordinator.phase(), Phase::Idle);
    }
}

#[test]
fn build_without_changes_returns_to_idle() {
    let mut coordinator = building();
    assert_eq!(coordinator.on_build_finished(Ok(())), Action::Nothing);
    assert_eq!(coordinator.phase(), Phase::Idle);
}

#[test]
fn ignorable_signals_change_nothing_in_any_phase() {
    let ignorable = [
        change(ChangeKind::Any),
        change(ChangeKind::Access),
        change(ChangeKind::Other),
        Signal::Watch(WatchSignal::Error),
    ];
    for signal in ignorable {
        let mut idle = Coordinator::new();
        assert_eq!(idle.handle(signal), Action::Nothing);
        assert_eq!(idle.phase(), Phase::Idle);

        let mut running = building();
        assert_eq!(running.handle(signal), Action::Nothing);
        assert_eq!(running.phase(), Phase::Building);

        let mut owed = building();
        owed.handle(change(ChangeKind::Modify));
        assert_eq!(owed.handle(signal), Action::Nothing);
        assert_eq!(owed.phase(), Phase::BuildingAndOwed);
    }
}

#[test]
fn failed_build_is_not_retried() {
    for failure in [BuildFailed::NotLaunched, BuildFailed::ExitedWithError] {
        let mut coordinator = building();
        assert_eq!(coordinator.on_build_finished(Err(failure)), Action::Nothing);
        assert_eq!(coordinator.phase(), Phase::Idle);
        assert_eq!(coordinator.handle(change(ChangeKind::Modify)), Action::StartBuild);
    }
}

#[test]
fn failed_build_still_hands_over_to_the_owed_one() {
    let mut coordinator = building();
    coordinator.handle(change(ChangeKind::Remove));
    assert_eq!(
        coordinator.on_build_finished(Err(BuildFailed::ExitedWithError)),
        Action::StartBuild
    );
    assert_eq!(coordinator.phase(), Phase::Building);
}

#[test]
fn completion_while_idle_is_ignored() {
    let mut coordinator = Coordinator::new();
    assert_eq!(coordinator.on_build_finished(Ok(())), Action::Nothing);
    assert_eq!(coordinator.phase(), Phase::Idle);
}

#[test]
fn never_more_than_one_build_in_flight() {
    let script = [
        change(ChangeKind::Create),
        change(ChangeKind::Modify),
        change(ChangeKind::Access),
        Signal::BuildFinished(Ok(())),
        change(ChangeKind::Remove),
        Signal::Watch(WatchSignal::Error),
        Signal::BuildFinished(Err(BuildFailed::ExitedWithError)),
        Signal::BuildFinished(Ok(())),
        change(ChangeKind::Modify),
        Signal::BuildFinished(Ok(())),
    ];
    let mut coordinator = Coordinator::new();
    let mut in_flight = 0;
    for signal in script {
        if matches!(signal, Signal::BuildFinished(_)) {
            assert_eq!(in_flight, 1);
            in_flight -= 1;
        }
        if coordinator.handle(signal) == Action::StartBuild {
            in_flight += 1;
        }
        assert!(in_flight <= 1);
        assert_eq!(coordinator.is_building(), in_flight == 1);
    }
    assert_eq!(in_flight, 0);
}

#[test]
fn notification_kinds_are_read_variant_for_variant() {
    let kinds = [
        (EventKind::Any, ChangeKind::Any),
        (EventKind::Access(AccessKind::Any), ChangeKind::Access),
        (EventKind::Create(CreateKind::File), ChangeKind::Create),
        (EventKind::Modify(ModifyKind::Any), ChangeKind::Modify),
        (EventKind::Remove(RemoveKind::Folder), ChangeKind::Remove),
        (EventKind::Other, ChangeKind::Other),
    ];
    for (outside, own) in kinds {
        let mut coordinator = Coordinator::new();
        let (signal, action) = coordinator.on_notification(&Ok(Event::new(outside)));
        assert_eq!(signal, WatchSignal::Change(own));
        let expected = if own.is_interesting() { Action::StartBuild } else { Action::Nothing };
        assert_eq!(action, expected);
    }
}

#[test]
fn created_file_notification_starts_a_build() {
    let mut coordinator = Coordinator::new();
    let read = Ok(Event::new(EventKind::Create(CreateKind::File)));
    assert_eq!(
        coordinator.on_notification(&read),
        (WatchSignal::Change(ChangeKind::Create), Action::StartBuild)
    );
    assert_eq!(coordinator.phase(), Phase::Building);
}

#[test]
fn access_notification_is_ignored() {
    let mut coordinator = Coordinator::new();
    let read = Ok(Event::new(EventKind::Access(AccessKind::Read)));
    assert_eq!(
        coordinator.on_notification(&read),
        (WatchSignal::Change(ChangeKind::Access), Action::Nothing)
    );
    assert_eq!(coordinator.phase(), Phase::Idle);
}

#[test]
fn watch_error_is_reported_and_changes_nothing() {
    let mut coordinator = building();
    let read = Err(notify::Error::generic("lost the watch"));
    assert_eq!(coordinator.on_notification(&read), (WatchSignal::Error, Action::Nothing));
    assert_eq!(coordinator.phase(), Phase::Building);
}

#[test]
fn replay_counts_the_builds_of_a_run() {
    let signals = vec![
        change(ChangeKind::Create),
        change(ChangeKind::Modify),
        change(ChangeKind::Modify),
        change(ChangeKind::Access),
        Signal::BuildFinished(Ok(())),
        Signal::BuildFinished(Ok(())),
        Signal::Watch(WatchSignal::Error),
        change(ChangeKind::Remove),
    ];
    let mut coordinator = Coordinator::new();
    assert_eq!(coordinator.replay(&signals), 3);
    assert_eq!(coordinator.phase(), Phase::Building);
}

#[test]
fn replay_of_nothing_changes_nothing() {
    let mut coordinator = building();
    assert_eq!(coordinator.replay(&Vec::new()), 0);
    assert_eq!(coordinator.phase(), Phase::Building);
}

#[test]
fn replay_of_a_burst_and_two_completions_builds_once() {
    for n in 1..10 {
        let mut signals = vec![change(ChangeKind::Modify); n];
        let mut coordinator = building();
        assert_eq!(coordinator.replay(&signals), 0);
        assert_eq!(coordinator.phase(), Phase::BuildingAndOwed);

        signals.push(Signal::BuildFinished(Ok(())));
        signals.push(Signal::BuildFinished(Err(BuildFailed::ExitedWithError)));
        let mut again = building();
        assert_eq!(again.replay(&signals), 1);
        assert_eq!(again.phase(), Phase::Idle);
    }
}

#[test]
fn replay_of_ignorable_signals_builds_nothing() {
    let signals = vec![
        change(ChangeKind::Access),
        change(ChangeKind::Any),
        change(ChangeKind::Other),
        Signal::Watch(WatchSignal::Error),
    ];
    let mut idle = Coordinator::new();
    assert_eq!(idle.replay(&signals), 0);
    assert_eq!(idle.phase(), Phase::Idle);
    let mut running = building();
    assert_eq!(running.replay(&signals), 0);
    assert_eq!(running.phase(), Phase::Building);
}
