use reqline::event::{App, InputEvent, KeyCode, KeyEvent, KeyEventKind};
use reqline::session::{Action, FailureKind, Outcome, Phase, Session, SessionError};

/// What a scripted driver saw while running a session.
struct Tally {
    acquires: usize,
    renders: usize,
    polls: usize,
    releases: usize,
    poll_timeouts: Vec<u64>,
    result: Option<Result<(), SessionError>>,
    session: Option<Session>,
}

/// Runs `session` against scripted outcomes: `acquire` answers the acquire
/// step, `render_fails_at` makes that render (counted from zero) fail,
/// `polls` answers the polls in order (an exhausted script stops the run, as
/// a harness would), `release_fails` makes the release fail.
fn drive(
    mut session: Session,
    acquire_ok: bool,
    render_fails_at: Option<usize>,
    mut polls: Vec<Outcome>,
    release_fails: bool,
) -> Tally {
    polls.reverse();
    let mut t = Tally {
        acquires: 0,
        renders: 0,
        polls: 0,
        releases: 0,
        poll_timeouts: Vec::new(),
        result: None,
        session: None,
    };
    loop {
        match session.next_action() {
            Action::Acquire => {
                t.acquires += 1;
                if acquire_ok {
                    session.step(Outcome::Acquired);
                } else {
                    session.step(Outcome::AcquireFailed("not a terminal".to_string()));
                }
            }
            Action::Render => {
                let n = t.renders;
                t.renders += 1;
                if render_fails_at == Some(n) {
                    session.step(Outcome::RenderFailed("write failed".to_string()));
                } else {
                    session.step(Outcome::Rendered);
                }
            }
            Action::Poll(ms) => match polls.pop() {
                Some(o) => {
                    t.polls += 1;
                    t.poll_timeouts.push(ms);
                    session.step(o);
                }
                None => {
                    t.session = Some(session);
                    return t;
                }
            },
            Action::Release => {
                t.releases += 1;
                if release_fails {
                    session.step(Outcome::ReleaseFailed("restore failed".to_string()));
                } else {
                    session.step(Outcome::Released);
                }
            }
            Action::Finish => {
                t.result = Some(session.into_result());
                return t;
            }
        }
    }
}

fn key(c: char, kind: KeyEventKind) -> Outcome {
    Outcome::Event(InputEvent::char_key(c, kind))
}

#[test]
fn a_then_q_renders_twice_then_quits() {
    let polls = vec![key('a', KeyEventKind::Press), key('q', KeyEventKind::Press)];
    let t = drive(Session::with_timeout(10), true, None, polls, false);
    assert_eq!(t.renders, 2);
    assert_eq!(t.polls, 2);
    assert_eq!(t.poll_timeouts, vec![10, 10]);
    assert_eq!(t.releases, 1);
    assert!(matches!(t.result, Some(Ok(()))));
}

#[test]
fn quit_state_is_set_before_release() {
    let mut s = Session::with_timeout(10);
    s.step(Outcome::Acquired);
    s.step(Outcome::Rendered);
    s.step(key('a', KeyEventKind::Press));
    assert!(!s.app().should_quit);
    s.step(Outcome::Rendered);
    s.step(key('q', KeyEventKind::Press));
    assert!(s.app().should_quit);
    assert_eq!(s.next_action(), Action::Release);
}

#[test]
fn empty_poll_windows_keep_rendering() {
    let polls = vec![Outcome::NoEvent, Outcome::NoEvent, Outcome::NoEvent];
    let t = drive(Session::with_timeout(10), true, None, polls, false);
    assert_eq!(t.renders, 4);
    assert_eq!(t.polls, 3);
    assert_eq!(t.releases, 0);
    let s = t.session.unwrap();
    assert!(!s.app().should_quit);
    assert_eq!(s.phase(), Phase::Polling);
}

#[test]
fn three_empty_windows_three_renders() {
    let mut s = Session::with_timeout(10);
    s.step(Outcome::Acquired);
    let mut renders = 0;
    for _ in 0..3 {
        assert_eq!(s.next_action(), Action::Render);
        renders += 1;
        s.step(Outcome::Rendered);
        assert_eq!(s.next_action(), Action::Poll(10));
        s.step(Outcome::NoEvent);
    }
    assert_eq!(renders, 3);
    assert_eq!(s.app(), App { should_quit: false });
    assert_eq!(s.next_action(), Action::Render);
}

#[test]
fn acquire_failure_still_releases() {
    let t = drive(Session::new(), false, None, Vec::new(), false);
    assert_eq!(t.acquires, 1);
    assert_eq!(t.renders, 0);
    assert_eq!(t.polls, 0);
    assert_eq!(t.releases, 1);
    let e = t.result.unwrap().unwrap_err();
    assert_eq!(e.cause.kind, FailureKind::TerminalInit);
    assert_eq!(e.cause.message, "not a terminal");
    assert!(e.teardown.is_none());
}

#[test]
fn render_failure_releases_once() {
    let polls = vec![Outcome::NoEvent];
    let t = drive(Session::new(), true, Some(1), polls, false);
    assert_eq!(t.renders, 2);
    assert_eq!(t.polls, 1);
    assert_eq!(t.releases, 1);
    let e = t.result.unwrap().unwrap_err();
    assert_eq!(e.cause.kind, FailureKind::Render);
    assert_eq!(e.cause.message, "write failed");
    assert!(e.teardown.is_none());
}

#[test]
fn poll_failure_releases_once() {
    let polls = vec![Outcome::NoEvent, Outcome::PollFailed("read failed".to_string())];
    let t = drive(Session::new(), true, None, polls, false);
    assert_eq!(t.renders, 2);
    assert_eq!(t.polls, 2);
    assert_eq!(t.releases, 1);
    let e = t.result.unwrap().unwrap_err();
    assert_eq!(e.cause.kind, FailureKind::Poll);
    assert_eq!(e.cause.message, "read failed");
}

#[test]
fn loop_error_takes_priority_over_teardown_error() {
    let polls = vec![Outcome::PollFailed("read failed".to_string())];
    let t = drive(Session::new(), true, None, polls, true);
    assert_eq!(t.releases, 1);
    let e = t.result.unwrap().unwrap_err();
    assert_eq!(e.cause.kind, FailureKind::Poll);
    let td = e.teardown.unwrap();
    assert_eq!(td.kind, FailureKind::Teardown);
    assert_eq!(td.message, "restore failed");
}

#[test]
fn teardown_error_alone_is_reported() {
    let polls = vec![key('q', KeyEventKind::Press)];
    let t = drive(Session::new(), true, None, polls, true);
    assert_eq!(t.renders, 1);
    assert_eq!(t.releases, 1);
    let e = t.result.unwrap().unwrap_err();
    assert_eq!(e.cause.kind, FailureKind::Teardown);
    assert_eq!(e.cause.message, "restore failed");
    assert!(e.teardown.is_none());
}

#[test]
fn no_quit_press_never_terminates() {
    let mut polls = Vec::new();
    for i in 0..50 {
        let o = match i % 5 {
            0 => key('a', KeyEventKind::Press),
            1 => key('q', KeyEventKind::Release),
            2 => key('q', KeyEventKind::Repeat),
            3 => Outcome::Event(InputEvent::Other),
            _ => Outcome::NoEvent,
        };
        polls.push(o);
    }
    let t = drive(Session::new(), true, None, polls, false);
    assert_eq!(t.polls, 50);
    assert_eq!(t.renders, 51);
    assert_eq!(t.releases, 0);
    assert!(t.result.is_none());
    assert!(!t.session.unwrap().app().should_quit);
}

#[test]
fn default_timeout_is_250_ms() {
    let mut s = Session::new();
    assert_eq!(s.timeout_ms(), 250);
    assert_eq!(s.next_action(), Action::Acquire);
    s.step(Outcome::Acquired);
    s.step(Outcome::Rendered);
    assert_eq!(s.next_action(), Action::Poll(250));
}

#[test]
fn outcome_for_another_action_is_ignored() {
    let mut s = Session::new();
    s.step(Outcome::Rendered);
    assert_eq!(s.phase(), Phase::Start);
    s.step(Outcome::Acquired);
    s.step(Outcome::NoEvent);
    assert_eq!(s.phase(), Phase::Running);
    assert_eq!(s.next_action(), Action::Render);
}

#[test]
fn finished_session_stays_finished() {
    let mut s = Session::new();
    s.step(Outcome::AcquireFailed("no tty".to_string()));
    s.step(Outcome::Released);
    assert!(s.is_done());
    s.step(Outcome::Released);
    s.step(Outcome::Acquired);
    assert!(s.is_done());
    assert_eq!(s.next_action(), Action::Finish);
}

#[test]
fn q_press_sets_quit() {
    let mut app = App::new();
    app.handle_event(&InputEvent::char_key('q', KeyEventKind::Press));
    assert!(app.should_quit);
}

#[test]
fn q_release_and_repeat_do_not_quit() {
    let mut app = App::new();
    app.handle_event(&InputEvent::char_key('q', KeyEventKind::Release));
    assert!(!app.should_quit);
    app.handle_event(&InputEvent::char_key('q', KeyEventKind::Repeat));
    assert!(!app.should_quit);
}

#[test]
fn other_keys_do_not_quit() {
    let mut app = App::new();
    app.handle_event(&InputEvent::char_key('Q', KeyEventKind::Press));
    app.handle_event(&InputEvent::Key(KeyEvent::new(KeyCode::Other, KeyEventKind::Press)));
    app.handle_event(&InputEvent::Other);
    assert!(!app.should_quit);
    assert!(!InputEvent::char_key('a', KeyEventKind::Press).is_quit());
    assert!(InputEvent::char_key('q', KeyEventKind::Press).is_quit());
}

#[test]
fn quit_flag_stays_set() {
    let mut app = App { should_quit: true };
    app.handle_event(&InputEvent::char_key('a', KeyEventKind::Press));
    app.handle_event(&InputEvent::char_key('q', KeyEventKind::Release));
    assert!(app.should_quit);
}
