use kswitch::catalog::DiscoveryError;
use kswitch::machine::{answer_event, Action, App, Event, SelectionState};
use kswitch::staging::{load_outcome, switch_outcome, StagingError};

fn names(v: &[&str]) -> Vec<String> {
    v.iter().map(|s| s.to_string()).collect()
}

fn two_kernels() -> App {
    App::new(Some(names(&["vmlinuz-5.10.0", "vmlinuz-5.15.0"])), None).unwrap()
}

fn confirming_second() -> App {
    let mut app = two_kernels();
    app.handle(Event::MoveNext);
    assert_eq!(app.handle(Event::Select), Action::Load("5.15.0".to_string()));
    assert_eq!(app.finish_load(Ok(())), None);
    app
}

#[test]
fn new_starts_browsing_at_first_row() {
    let app = two_kernels();
    assert_eq!(app.state(), &SelectionState::Browsing { cursor: 0 });
    assert_eq!(app.kernel_versions(), &names(&["5.10.0", "5.15.0"]));
    assert_eq!(app.current_kernel(), &None);
}

#[test]
fn new_fails_on_discovery_errors() {
    assert_eq!(App::new(None, None).err(), Some(DiscoveryError::MissingDirectory));
    assert_eq!(App::new(Some(Vec::new()), None).err(), Some(DiscoveryError::Empty));
}

#[test]
fn move_next_wraps_around() {
    let mut app = two_kernels();
    assert_eq!(app.handle(Event::MoveNext), Action::Nothing);
    assert_eq!(app.cursor(), 1);
    assert_eq!(app.handle(Event::MoveNext), Action::Nothing);
    assert_eq!(app.cursor(), 0);
}

#[test]
fn move_previous_wraps_around() {
    let mut app = App::new(Some(names(&["vmlinuz-a", "vmlinuz-b", "vmlinuz-c"])), None).unwrap();
    app.previous();
    assert_eq!(app.cursor(), 2);
    app.previous();
    assert_eq!(app.cursor(), 1);
    app.next();
    assert_eq!(app.cursor(), 2);
}

#[test]
fn full_cycle_returns_to_start() {
    let mut app = App::new(Some(names(&["vmlinuz-a", "vmlinuz-b", "vmlinuz-c"])), None).unwrap();
    app.handle(Event::MoveNext);
    for _ in 0..3 {
        app.handle(Event::MoveNext);
    }
    assert_eq!(app.cursor(), 1);
    app.handle(Event::MovePrevious);
    app.handle(Event::MoveNext);
    assert_eq!(app.cursor(), 1);
}

#[test]
fn single_row_catalog_stays_put() {
    let mut app = App::new(Some(names(&["vmlinuz-6.1"])), None).unwrap();
    app.handle(Event::MoveNext);
    assert_eq!(app.cursor(), 0);
    app.handle(Event::MovePrevious);
    assert_eq!(app.cursor(), 0);
}

#[test]
fn quit_while_browsing() {
    let mut app = two_kernels();
    assert_eq!(app.handle(Event::Quit), Action::Quit);
    assert!(app.is_browsing());
}

#[test]
fn confirmation_events_ignored_while_browsing() {
    let mut app = two_kernels();
    app.handle(Event::MoveNext);
    assert_eq!(app.handle(Event::ConfirmYes), Action::Nothing);
    assert_eq!(app.handle(Event::ConfirmNo), Action::Nothing);
    assert_eq!(app.state(), &SelectionState::Browsing { cursor: 1 });
}

#[test]
fn select_then_successful_load_confirms_that_version() {
    let app = confirming_second();
    assert_eq!(
        app.state(),
        &SelectionState::Confirming { staged_version: "5.15.0".to_string(), cursor: 1 }
    );
    assert!(!app.is_browsing());
}

#[test]
fn failed_load_keeps_browsing() {
    let mut app = two_kernels();
    assert_eq!(app.handle(Event::Select), Action::Load("5.10.0".to_string()));
    let shown = app.finish_load(load_outcome(false, "kexec: permission denied".to_string()));
    assert_eq!(shown, Some("kexec load failed: kexec: permission denied".to_string()));
    assert_eq!(app.state(), &SelectionState::Browsing { cursor: 0 });
}

#[test]
fn failed_load_without_initrd_names_version() {
    let mut app = two_kernels();
    app.handle(Event::Select);
    let shown = app.finish_load(Err(StagingError::InitrdNotFound));
    assert_eq!(shown, Some("No initrd file found for version 5.10.0".to_string()));
    assert_eq!(app.cursor(), 0);
}

#[test]
fn browsing_events_ignored_while_confirming() {
    let mut app = confirming_second();
    let before = app.state().clone();
    for e in [Event::MoveNext, Event::MovePrevious, Event::Select, Event::Quit] {
        assert_eq!(app.handle(e), Action::Nothing);
        assert_eq!(app.state(), &before);
    }
    app.next();
    app.previous();
    assert_eq!(app.state(), &before);
}

#[test]
fn confirm_no_returns_to_browsing_same_row() {
    let mut app = confirming_second();
    assert_eq!(app.handle(Event::ConfirmNo), Action::Nothing);
    assert_eq!(app.state(), &SelectionState::Browsing { cursor: 1 });
}

#[test]
fn confirm_yes_asks_for_execute() {
    let mut app = confirming_second();
    assert_eq!(app.handle(Event::ConfirmYes), Action::Execute);
    assert!(!app.is_browsing());
    let shown = app.finish_switch(switch_outcome(false, "denied".to_string()));
    assert_eq!(shown, Some("kexec execute failed: denied".to_string()));
    assert_eq!(app.state(), &SelectionState::Browsing { cursor: 1 });
}

#[test]
fn switch_that_returns_resumes_browsing() {
    let mut app = confirming_second();
    app.handle(Event::ConfirmYes);
    assert_eq!(app.finish_switch(Ok(())), None);
    assert_eq!(app.state(), &SelectionState::Browsing { cursor: 1 });
}

#[test]
fn answers_to_prompt() {
    assert_eq!(answer_event("n\n"), Event::ConfirmNo);
    assert_eq!(answer_event(" NO "), Event::ConfirmNo);
    assert_eq!(answer_event("No"), Event::ConfirmNo);
    assert_eq!(answer_event("N"), Event::ConfirmNo);
    assert_eq!(answer_event("\n"), Event::ConfirmYes);
    assert_eq!(answer_event("y"), Event::ConfirmYes);
    assert_eq!(answer_event("nope"), Event::ConfirmYes);
    assert_eq!(answer_event("o"), Event::ConfirmYes);
}

#[test]
fn row_labels_mark_current_kernel() {
    let app = App::new(
        Some(names(&["vmlinuz-5.10.0", "vmlinuz-5.15.0"])),
        Some("5.15.0".to_string()),
    )
    .unwrap();
    assert_eq!(app.row_label(0), "  5.10.0");
    assert_eq!(app.row_label(1), "  5.15.0 (current)");
}
