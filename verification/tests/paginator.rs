use rusty_cards::error::Error;
use rusty_cards::paginator::{PageInput, Paginator, StepOutcome};

#[test]
fn an_empty_sequence_is_rejected() {
    let items: Vec<&str> = vec![];
    let r = Paginator::new(items, 0, 30);
    assert_eq!(r.err(), Some(Error::EmptySequence));
}

#[test]
fn a_session_walks_forward_and_stops_at_the_edges() {
    let p = Paginator::new(vec!["A", "B", "C"], 0, 30);
    let mut p = p.unwrap_or_else(|_| panic!("three items open a session"));

    assert_eq!(p.cursor(), 0);
    assert!(!p.prev_allowed());
    assert!(p.next_allowed());
    assert_eq!(*p.current(), "A");

    assert_eq!(p.step(PageInput::Next, 5), StepOutcome::Rendered(1));
    assert!(p.prev_allowed());
    assert!(p.next_allowed());
    assert_eq!(*p.current(), "B");

    assert_eq!(p.step(PageInput::Next, 10), StepOutcome::Rendered(2));
    assert!(p.prev_allowed());
    assert!(!p.next_allowed());
    assert_eq!(*p.current(), "C");

    // `next` while only `previous` is offered: rejected, nothing changes.
    assert_eq!(p.step(PageInput::Next, 15), StepOutcome::Rejected);
    assert_eq!(p.cursor(), 2);
    assert!(p.active());

    assert_eq!(p.step(PageInput::Previous, 20), StepOutcome::Rendered(1));
    assert_eq!(*p.current(), "B");
}

#[test]
fn inactivity_beyond_the_step_timeout_closes_the_session() {
    let mut p = Paginator::new(vec!["A", "B"], 0, 30).unwrap();
    // The deadline is 0 + 30; an input at 30 or later arrives too late.
    assert_eq!(p.step(PageInput::Next, 30), StepOutcome::Closed);
    assert!(!p.active());
    assert_eq!(p.step(PageInput::Next, 31), StepOutcome::Closed);
}

#[test]
fn a_timeout_report_closes_the_session() {
    let mut p = Paginator::new(vec!["A", "B"], 0, 30).unwrap();
    assert_eq!(p.step(PageInput::Timeout, 5), StepOutcome::Closed);
    assert!(!p.active());
}

#[test]
fn an_accepted_input_refreshes_the_deadline() {
    let mut p = Paginator::new(vec!["A", "B"], 0, 30).unwrap();
    assert_eq!(p.step(PageInput::Next, 29), StepOutcome::Rendered(1));
    // The deadline moved to 29 + 30, so an input at 58 still lands.
    assert_eq!(p.step(PageInput::Previous, 58), StepOutcome::Rendered(0));
    // A rejected input does not refresh: at cursor 0 `previous` is not
    // offered, and the deadline stays 58 + 30.
    assert_eq!(p.step(PageInput::Previous, 60), StepOutcome::Rejected);
    assert_eq!(p.step(PageInput::Next, 88), StepOutcome::Closed);
}

#[test]
fn an_explicit_close_is_terminal() {
    let mut p = Paginator::new(vec!["A", "B"], 0, 30).unwrap();
    p.close();
    assert!(!p.active());
    assert!(!p.prev_allowed());
    assert!(!p.next_allowed());
    assert_eq!(p.step(PageInput::Next, 1), StepOutcome::Closed);
}
