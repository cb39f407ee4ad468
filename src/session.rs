use vstd::prelude::*;

use crate::event::{handled, App, InputEvent};

verus! {

/// How long the loop waits for an input event, unless told otherwise.
pub const DEFAULT_POLL_TIMEOUT_MS: u64 = 250;

/// The stage at which a session failed.
#[derive(Clone, Copy, Debug, PartialEq, Eq, Structural)]
pub enum FailureKind {
    /// The terminal could not be put into raw mode and the alternate screen.
    TerminalInit,
    /// Drawing a frame failed.
    Render,
    /// Waiting for or reading an input event failed.
    Poll,
    /// Putting the terminal back into its normal mode failed.
    Teardown,
}

#[derive(Debug)]
pub struct Failure {
    pub kind: FailureKind,
    pub message: String,
}

/// What a failed session reports: the failure that ended it and, where
/// restoring the terminal failed afterwards as well, that second failure.
#[derive(Debug)]
pub struct SessionError {
    pub cause: Failure,
    pub teardown: Option<Failure>,
}

/// Where a session stands.
#[derive(Clone, Copy, Debug, PartialEq, Eq, Structural)]
pub enum Phase {
    /// The terminal has not been acquired yet.
    Start,
    /// At the top of a loop iteration.
    Running,
    /// A frame was drawn; the loop waits for an input event.
    Polling,
    /// The loop is over; the terminal must be restored.
    Releasing,
    /// The terminal was restored; the result can be taken.
    Done,
}

/// What the driver has to do next.
#[derive(Clone, Copy, Debug, PartialEq, Eq, Structural)]
pub enum Action {
    /// Put the terminal into raw mode and the alternate screen.
    Acquire,
    /// Draw one frame.
    Render,
    /// Wait at most this many milliseconds for one input event.
    Poll(u64),
    /// Restore the terminal, as far as that can be done.
    Release,
    /// Take the session's result and stop.
    Finish,
}

/// How the action that the driver performed turned out.
#[derive(Debug)]
pub enum Outcome {
    Acquired,
    AcquireFailed(String),
    Rendered,
    RenderFailed(String),
    Event(InputEvent),
    NoEvent,
    PollFailed(String),
    Released,
    ReleaseFailed(String),
}

/// The model of a session. The three counters record how many renders,
/// polls and releases have been performed and reported back.
pub struct SessionView {
    pub phase: Phase,
    pub app: App,
    pub timeout_ms: u64,
    pub failure: Option<Failure>,
    pub teardown: Option<Failure>,
    pub renders: nat,
    pub polls: nat,
    pub releases: nat,
}

/// A session that has not started yet.
pub open spec fn initial(timeout_ms: u64) -> SessionView {
    SessionView {
        phase: Phase::Start,
        app: App { should_quit: false },
        timeout_ms,
        failure: None,
        teardown: None,
        renders: 0,
        polls: 0,
        releases: 0,
    }
}

/// The action that a session in state `s` asks for. At the top of an
/// iteration the loop releases the terminal once `should_quit` is set, and
/// otherwise draws a frame.
pub open spec fn next_action(s: SessionView) -> Action {
    match s.phase {
        Phase::Start => Action::Acquire,
        Phase::Running => if s.app.should_quit {
            Action::Release
        } else {
            Action::Render
        },
        Phase::Polling => Action::Poll(s.timeout_ms),
        Phase::Releasing => Action::Release,
        Phase::Done => Action::Finish,
    }
}

/// The state after the terminal was restored (or failed to be).
pub open spec fn released(s: SessionView, o: Outcome) -> SessionView {
    match o {
        Outcome::Released => SessionView { phase: Phase::Done, releases: s.releases + 1, ..s },
        Outcome::ReleaseFailed(m) => SessionView {
            phase: Phase::Done,
            releases: s.releases + 1,
            teardown: Some(Failure { kind: FailureKind::Teardown, message: m }),
            ..s
        },
        _ => s,
    }
}

/// The state after the outcome `o` of the action `next_action(s)` is
/// reported. An outcome that does not answer that action changes nothing.
pub open spec fn step(s: SessionView, o: Outcome) -> SessionView {
    match s.phase {
        Phase::Start => match o {
            Outcome::Acquired => SessionView { phase: Phase::Running, ..s },
            Outcome::AcquireFailed(m) => SessionView {
                phase: Phase::Releasing,
                failure: Some(Failure { kind: FailureKind::TerminalInit, message: m }),
                ..s
            },
            _ => s,
        },
        Phase::Running => if s.app.should_quit {
            released(s, o)
        } else {
            match o {
                Outcome::Rendered => SessionView {
                    phase: Phase::Polling,
                    renders: s.renders + 1,
                    ..s
                },
                Outcome::RenderFailed(m) => SessionView {
                    phase: Phase::Releasing,
                    renders: s.renders + 1,
                    failure: Some(Failure { kind: FailureKind::Render, message: m }),
                    ..s
                },
                _ => s,
            }
        },
        Phase::Polling => match o {
            Outcome::Event(e) => SessionView {
                phase: Phase::Running,
                app: handled(s.app, e),
                polls: s.polls + 1,
                ..s
            },
            Outcome::NoEvent => SessionView { phase: Phase::Running, polls: s.polls + 1, ..s },
            Outcome::PollFailed(m) => SessionView {
                phase: Phase::Releasing,
                polls: s.polls + 1,
                failure: Some(Failure { kind: FailureKind::Poll, message: m }),
                ..s
            },
            _ => s,
        },
        Phase::Releasing => released(s, o),
        Phase::Done => s,
    }
}

/// The state after the outcomes `os` are reported one after another.
pub open spec fn run(s: SessionView, os: Seq<Outcome>) -> SessionView
    decreases os.len(),
{
    if os.len() == 0 {
        s
    } else {
        run(step(s, os[0]), os.drop_first())
    }
}

/// What the session reports: success, or the failure that ended the loop
/// together with a failure to restore the terminal, or the latter alone.
pub open spec fn result_of(s: SessionView) -> Result<(), SessionError> {
    match s.failure {
        Some(f) => Err(SessionError { cause: f, teardown: s.teardown }),
        None => match s.teardown {
            Some(t) => Err(SessionError { cause: t, teardown: None }),
            None => Ok(()),
        },
    }
}

/// A terminal session and the event loop that runs in it, as a state
/// machine: the driver asks for `next_action`, performs it, and reports the
/// outcome with `step`.
pub struct Session {
    phase: Phase,
    app: App,
    timeout_ms: u64,
    failure: Option<Failure>,
    teardown: Option<Failure>,
    renders: Ghost<nat>,
    polls: Ghost<nat>,
    releases: Ghost<nat>,
}

impl View for Session {
    type V = SessionView;

    closed spec fn view(&self) -> SessionView {
        SessionView {
            phase: self.phase,
            app: self.app,
            timeout_ms: self.timeout_ms,
            failure: self.failure,
            teardown: self.teardown,
            renders: self.renders@,
            polls: self.polls@,
            releases: self.releases@,
        }
    }
}

impl Session {
    /// A session that polls with the default timeout.
    pub fn new() -> (r: Session)
        ensures
            r@ == initial(DEFAULT_POLL_TIMEOUT_MS),
    {
        Session::with_timeout(DEFAULT_POLL_TIMEOUT_MS)
    }

    /// A session that waits at most `timeout_ms` milliseconds per poll.
    pub fn with_timeout(timeout_ms: u64) -> (r: Session)
        ensures
            r@ == initial(timeout_ms),
    {
        Session {
            phase: Phase::Start,
            app: App::new(),
            timeout_ms,
            failure: None,
            teardown: None,
            renders: Ghost(0),
            polls: Ghost(0),
            releases: Ghost(0),
        }
    }

    pub fn phase(&self) -> (r: Phase)
        ensures
            r == self@.phase,
    {
        self.phase
    }

    pub fn app(&self) -> (r: App)
        ensures
            r == self@.app,
    {
        self.app
    }

    pub fn timeout_ms(&self) -> (r: u64)
        ensures
            r == self@.timeout_ms,
    {
        self.timeout_ms
    }

    pub fn is_done(&self) -> (r: bool)
        ensures
            r == (self@.phase == Phase::Done),
    {
        match self.phase {
            Phase::Done => true,
            _ => false,
        }
    }

    /// The action the driver has to perform next.
    pub fn next_action(&self) -> (r: Action)
        ensures
            r == next_action(self@),
    {
        match self.phase {
            Phase::Start => Action::Acquire,
            Phase::Running => if self.app.should_quit {
                Action::Release
            } else {
                Action::Render
            },
            Phase::Polling => Action::Poll(self.timeout_ms),
            Phase::Releasing => Action::Release,
            Phase::Done => Action::Finish,
        }
    }

    fn record_release(&mut self, o: Outcome)
        ensures
            final(self)@ == released(old(self)@, o),
    {
        match o {
            Outcome::Released => {
                self.phase = Phase::Done;
                self.releases = Ghost(self.releases@ + 1);
            },
            Outcome::ReleaseFailed(m) => {
                self.phase = Phase::Done;
                self.releases = Ghost(self.releases@ + 1);
                self.teardown = Some(Failure { kind: FailureKind::Teardown, message: m });
            },
            _ => {},
        }
    }

    /// Reports how the action asked for last turned out. An outcome that
    /// does not answer that action is ignored.
    pub fn step(&mut self, o: Outcome)
        ensures
            final(self)@ == step(old(self)@, o),
    {
        match self.phase {
            Phase::Start => match o {
                Outcome::Acquired => {
                    self.phase = Phase::Running;
                },
                Outcome::AcquireFailed(m) => {
                    self.phase = Phase::Releasing;
                    self.failure = Some(Failure { kind: FailureKind::TerminalInit, message: m });
                },
                _ => {},
            },
            Phase::Running => {
                if self.app.should_quit {
                    self.record_release(o);
                } else {
                    match o {
                        Outcome::Rendered => {
                            self.phase = Phase::Polling;
                            self.renders = Ghost(self.renders@ + 1);
                        },
                        Outcome::RenderFailed(m) => {
                            self.phase = Phase::Releasing;
                            self.renders = Ghost(self.renders@ + 1);
                            self.failure = Some(Failure { kind: FailureKind::Render, message: m });
                        },
                        _ => {},
                    }
                }
            },
            Phase::Polling => match o {
                Outcome::Event(e) => {
                    self.phase = Phase::Running;
                    self.app.handle_event(&e);
                    self.polls = Ghost(self.polls@ + 1);
                },
                Outcome::NoEvent => {
                    self.phase = Phase::Running;
                    self.polls = Ghost(self.polls@ + 1);
                },
                Outcome::PollFailed(m) => {
                    self.phase = Phase::Releasing;
                    self.polls = Ghost(self.polls@ + 1);
                    self.failure = Some(Failure { kind: FailureKind::Poll, message: m });
                },
                _ => {},
            },
            Phase::Releasing => {
                self.record_release(o);
            },
            Phase::Done => {},
        }
    }

    /// The session's result: `Ok` unless something failed.
    pub fn into_result(self) -> (r: Result<(), SessionError>)
        ensures
            r == result_of(self@),
    {
        match self.failure {
            Some(f) => Err(SessionError { cause: f, teardown: self.teardown }),
            None => match self.teardown {
                Some(t) => Err(SessionError { cause: t, teardown: None }),
                None => Ok(()),
            },
        }
    }
}

} // verus!
