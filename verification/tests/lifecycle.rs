use camera_view::lifecycle::{step, Action, Event, Phase};

#[test]
fn resuming_sets_up_and_runs() {
    assert_eq!(step(Phase::Suspended, Event::Resumed), (Phase::Running, Action::Setup));
    assert_eq!(step(Phase::Running, Event::Resumed), (Phase::Running, Action::Setup));
}

#[test]
fn close_request_exits_in_either_phase() {
    assert_eq!(step(Phase::Suspended, Event::CloseRequested), (Phase::Suspended, Action::Exit));
    assert_eq!(step(Phase::Running, Event::CloseRequested), (Phase::Running, Action::Exit));
}

#[test]
fn redraw_request_draws_while_running() {
    assert_eq!(step(Phase::Running, Event::RedrawRequested), (Phase::Running, Action::Redraw));
}

#[test]
fn other_events_are_ignored() {
    assert_eq!(step(Phase::Suspended, Event::Other), (Phase::Suspended, Action::Ignore));
    assert_eq!(step(Phase::Running, Event::Other), (Phase::Running, Action::Ignore));
}

#[test]
fn a_session_runs_from_resume_to_close() {
    let events = [
        Event::Other,
        Event::Resumed,
        Event::RedrawRequested,
        Event::Other,
        Event::RedrawRequested,
        Event::CloseRequested,
    ];
    let mut phase = Phase::Suspended;
    let mut actions = vec![];
    for event in events {
        let (next, action) = step(phase, event);
        phase = next;
        actions.push(action);
    }
    assert_eq!(phase, Phase::Running);
    assert_eq!(
        actions,
        vec![
            Action::Ignore,
            Action::Setup,
            Action::Redraw,
            Action::Ignore,
            Action::Redraw,
            Action::Exit,
        ]
    );
}
