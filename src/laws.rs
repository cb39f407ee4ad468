use vstd::prelude::*;

use crate::event::{handled, is_quit_press, App, InputEvent, KeyCode, KeyEvent, KeyEventKind, QUIT_KEY};
use crate::session::{
    initial, next_action, run, step, Action, Failure, FailureKind, Outcome, Phase, SessionView,
};

verus! {

/// The outcome reports a failed action.
pub open spec fn is_failure(o: Outcome) -> bool {
    match o {
        Outcome::AcquireFailed(_) => true,
        Outcome::RenderFailed(_) => true,
        Outcome::PollFailed(_) => true,
        Outcome::ReleaseFailed(_) => true,
        _ => false,
    }
}

/// The outcome delivers a press of the quit key.
pub open spec fn is_quit_outcome(o: Outcome) -> bool {
    match o {
        Outcome::Event(e) => is_quit_press(e),
        _ => false,
    }
}

/// The session has not left its loop.
pub open spec fn is_live(p: Phase) -> bool {
    p == Phase::Start || p == Phase::Running || p == Phase::Polling
}

pub open spec fn is_kind(f: Option<Failure>, k: FailureKind) -> bool {
    match f {
        Some(x) => x.kind == k,
        None => false,
    }
}

/// What holds of every state a session can reach from `initial`.
pub open spec fn reachable_inv(s: SessionView) -> bool {
    &&& s.releases <= 1
    &&& (s.phase == Phase::Done) == (s.releases == 1)
    &&& s.phase == Phase::Start ==> s.renders == 0 && s.polls == 0 && s.failure is None
        && !s.app.should_quit
    &&& is_live(s.phase) ==> s.failure is None
    &&& s.phase == Phase::Polling ==> !s.app.should_quit
    &&& s.teardown is Some ==> s.phase == Phase::Done && is_kind(s.teardown, FailureKind::Teardown)
    &&& s.phase == Phase::Releasing ==> s.failure is Some
    &&& !is_kind(s.failure, FailureKind::Teardown)
    &&& is_kind(s.failure, FailureKind::TerminalInit) ==> s.renders == 0 && s.polls == 0
    &&& s.renders == s.polls + (if s.phase == Phase::Polling || is_kind(s.failure, FailureKind::Render) {
        1nat
    } else {
        0nat
    })
}

proof fn lemma_step_inv(s: SessionView, o: Outcome)
    requires
        reachable_inv(s),
    ensures
        reachable_inv(step(s, o)),
{
}

proof fn lemma_run_inv(s: SessionView, os: Seq<Outcome>)
    requires
        reachable_inv(s),
    ensures
        reachable_inv(run(s, os)),
    decreases os.len(),
{
    if os.len() > 0 {
        lemma_step_inv(s, os[0]);
        lemma_run_inv(step(s, os[0]), os.drop_first());
    }
}

/// The key handler sets `should_quit` on a press of the quit key, whatever
/// the state was, and leaves the state unchanged on a repeat or a release of
/// that key.
pub proof fn lemma_quit_on_press_only(app: App, kind: KeyEventKind)
    ensures
        handled(app, InputEvent::Key(KeyEvent { code: KeyCode::Char(QUIT_KEY), kind })).should_quit
            == (app.should_quit || kind == KeyEventKind::Press),
        kind != KeyEventKind::Press ==> handled(
            app,
            InputEvent::Key(KeyEvent { code: KeyCode::Char(QUIT_KEY), kind }),
        ) == app,
{
}

/// As long as no quit press arrives, `should_quit` stays unset; and if
/// nothing fails either, the session never leaves its loop: it only ever
/// asks to acquire, to render or to poll.
pub proof fn lemma_no_quit_without_quit_press(s: SessionView, os: Seq<Outcome>)
    requires
        reachable_inv(s),
        !s.app.should_quit,
        forall|i: int| 0 <= i < os.len() ==> !is_quit_outcome(#[trigger] os[i]),
    ensures
        !run(s, os).app.should_quit,
        is_live(s.phase) && (forall|i: int| 0 <= i < os.len() ==> !is_failure(#[trigger] os[i]))
            ==> is_live(run(s, os).phase) && next_action(run(s, os)) != Action::Release
            && next_action(run(s, os)) != Action::Finish,
    decreases os.len(),
{
    if os.len() > 0 {
        lemma_step_inv(s, os[0]);
        let t = os.drop_first();
        assert(!is_quit_outcome(os[0]));
        assert forall|i: int| 0 <= i < t.len() implies !is_quit_outcome(#[trigger] t[i]) by {
            assert(t[i] == os[i + 1]);
        }
        if is_live(s.phase) && (forall|i: int| 0 <= i < os.len() ==> !is_failure(#[trigger] os[i])) {
            assert(!is_failure(os[0]));
            assert forall|i: int| 0 <= i < t.len() implies !is_failure(#[trigger] t[i]) by {
                assert(t[i] == os[i + 1]);
            }
        }
        lemma_no_quit_without_quit_press(step(s, os[0]), t);
    }
}

/// One iteration of the loop draws exactly one frame and waits once for
/// input, whether or not an event arrived: starting at the top of an
/// iteration, a successful render followed by an event or by an empty poll
/// window brings the session back to the top with one more render and one
/// more poll.
pub proof fn lemma_one_render_per_iteration(s: SessionView, p: Outcome)
    requires
        s.phase == Phase::Running,
        !s.app.should_quit,
        p is Event || p is NoEvent,
    ensures
        next_action(s) == Action::Render,
        next_action(step(s, Outcome::Rendered)) == Action::Poll(s.timeout_ms),
        step(step(s, Outcome::Rendered), p).phase == Phase::Running,
        step(step(s, Outcome::Rendered), p).renders == s.renders + 1,
        step(step(s, Outcome::Rendered), p).polls == s.polls + 1,
{
}

/// In every state a session reaches, renders and polls alternate: the
/// number of renders is the number of polls, plus one while a drawn frame
/// waits for its poll or after the render that failed.
pub proof fn lemma_renders_alternate_with_polls(timeout_ms: u64, os: Seq<Outcome>)
    ensures
        run(initial(timeout_ms), os).renders == run(initial(timeout_ms), os).polls + (if run(
            initial(timeout_ms),
            os,
        ).phase == Phase::Polling || is_kind(run(initial(timeout_ms), os).failure, FailureKind::Render) {
            1nat
        } else {
            0nat
        }),
{
    lemma_run_inv(initial(timeout_ms), os);
}

/// Once `should_quit` is set, no further frame is drawn and no further
/// poll is made, whatever is reported afterwards.
pub proof fn lemma_nothing_after_quit(s: SessionView, os: Seq<Outcome>)
    requires
        reachable_inv(s),
        s.app.should_quit,
    ensures
        run(s, os).app.should_quit,
        run(s, os).renders == s.renders,
        run(s, os).polls == s.polls,
    decreases os.len(),
{
    if os.len() > 0 {
        lemma_step_inv(s, os[0]);
        lemma_nothing_after_quit(step(s, os[0]), os.drop_first());
    }
}

/// Every way out of the loop goes through one release of the terminal: in
/// every state a session reaches, the terminal has been released at most
/// once, and exactly once when the session asks to finish; after a quit or
/// a failure, the session asks for that release until it is reported.
pub proof fn lemma_release_exactly_once(timeout_ms: u64, os: Seq<Outcome>)
    ensures
        run(initial(timeout_ms), os).releases <= 1,
        next_action(run(initial(timeout_ms), os)) == Action::Finish ==> run(
            initial(timeout_ms),
            os,
        ).releases == 1,
        run(initial(timeout_ms), os).phase != Phase::Done && (run(
            initial(timeout_ms),
            os,
        ).app.should_quit || run(initial(timeout_ms), os).failure is Some) ==> next_action(
            run(initial(timeout_ms), os),
        ) == Action::Release,
{
    lemma_run_inv(initial(timeout_ms), os);
}

} // verus!
