//! The lifecycle of the sender loop: at most one loop at a time.
//!
//! The controller decides; its caller carries the decisions out. A request is
//! answered with the phase that follows and with the actions to perform, in
//! order, before the request returns.

use vstd::prelude::*;

verus! {

/// What the controller knows between two requests.
#[derive(Clone, Copy, Debug, PartialEq, Eq, Structural)]
pub enum Phase {
    /// No loop is held.
    Idle,
    /// One loop was launched and has not been stopped.
    Running,
}

/// What a caller asks of the controller.
#[derive(Clone, Copy, Debug, PartialEq, Eq, Structural)]
pub enum Request {
    Start,
    Stop,
}

/// One step that the caller performs for the controller.
#[derive(Clone, Copy, Debug, PartialEq, Eq, Structural)]
pub enum Action {
    /// Raise the held loop's cancellation flag and wait until the loop has
    /// returned. While this step lasts the loop is stopping.
    CancelAndJoin,
    /// Launch a new loop and hold it.
    Launch,
}

/// The answer to a request.
#[derive(Clone, Debug, PartialEq, Eq)]
pub struct Transition {
    pub next: Phase,
    pub actions: Vec<Action>,
}

/// The phase that follows a request.
pub open spec fn next_phase(phase: Phase, request: Request) -> Phase {
    match request {
        Request::Start => Phase::Running,
        Request::Stop => Phase::Idle,
    }
}

/// The actions that a request calls for: a held loop is stopped first, and a
/// start then launches a new one.
pub open spec fn actions_for(phase: Phase, request: Request) -> Seq<Action> {
    let stop: Seq<Action> = match phase {
        Phase::Running => seq![Action::CancelAndJoin],
        Phase::Idle => Seq::empty(),
    };
    match request {
        Request::Start => stop.push(Action::Launch),
        Request::Stop => stop,
    }
}

/// Number of loops that are alive in a phase.
pub open spec fn loops_in(phase: Phase) -> int {
    match phase {
        Phase::Idle => 0,
        Phase::Running => 1,
    }
}

/// Number of loops that are alive once an action has been performed.
pub open spec fn loops_after_action(loops: int, action: Action) -> int {
    match action {
        Action::CancelAndJoin => loops - 1,
        Action::Launch => loops + 1,
    }
}

/// Number of loops that are alive once the actions have been performed in
/// order.
pub open spec fn loops_after(loops: int, actions: Seq<Action>) -> int
    decreases actions.len(),
{
    if actions.len() == 0 {
        loops
    } else {
        loops_after_action(loops_after(loops, actions.drop_last()), actions.last())
    }
}

/// Decides a request.
pub fn transition(phase: Phase, request: Request) -> (t: Transition)
    ensures
        t.next == next_phase(phase, request),
        t.actions@ == actions_for(phase, request),
{
    let mut actions: Vec<Action> = Vec::new();
    if let Phase::Running = phase {
        actions.push(Action::CancelAndJoin);
    }
    match request {
        Request::Start => {
            actions.push(Action::Launch);
            assert(actions@ =~= actions_for(phase, request));
            Transition { next: Phase::Running, actions }
        },
        Request::Stop => {
            assert(actions@ =~= actions_for(phase, request));
            Transition { next: Phase::Idle, actions }
        },
    }
}

/// Stopping is idempotent. A stop with no loop held asks for nothing and
/// leaves the controller idle; so does the second of two stops in a row,
/// whatever the phase before the first.
pub proof fn lemma_stop_idempotent(phase: Phase)
    ensures
        next_phase(Phase::Idle, Request::Stop) == Phase::Idle,
        actions_for(Phase::Idle, Request::Stop) == Seq::<Action>::empty(),
        next_phase(next_phase(phase, Request::Stop), Request::Stop) == next_phase(
            phase,
            Request::Stop,
        ),
        actions_for(next_phase(phase, Request::Stop), Request::Stop) == Seq::<Action>::empty(),
{
}

/// At most one loop. While the actions of any request are performed in order,
/// never more than one loop is alive, and none is stopped that does not exist;
/// when they are done, the loops alive are those of the phase that follows.
/// After a start that is exactly one loop, and it was launched only after the
/// loop held before had returned.
pub proof fn lemma_single_loop(phase: Phase, request: Request, done: int)
    requires
        0 <= done <= actions_for(phase, request).len(),
    ensures
        0 <= loops_after(loops_in(phase), actions_for(phase, request).take(done)) <= 1,
        loops_after(loops_in(phase), actions_for(phase, request)) == loops_in(
            next_phase(phase, request),
        ),
        request == Request::Start ==> loops_in(next_phase(phase, request)) == 1,
        (phase == Phase::Running && request == Request::Start) ==> actions_for(phase, request)
            == seq![Action::CancelAndJoin, Action::Launch],
{
    let actions = actions_for(phase, request);
    let start = loops_in(phase);
    assert(actions.take(0) =~= Seq::<Action>::empty());
    assert(loops_after(start, actions.take(0)) == start);
    if actions.len() >= 1 {
        assert(actions.take(1).drop_last() =~= actions.take(0));
        assert(loops_after(start, actions.take(1)) == loops_after_action(start, actions[0]));
    }
    if actions.len() >= 2 {
        assert(actions.take(2).drop_last() =~= actions.take(1));
        assert(loops_after(start, actions.take(2)) == loops_after_action(
            loops_after(start, actions.take(1)),
            actions[1],
        ));
    }
    assert(actions.take(actions.len() as int) =~= actions);
    if phase == Phase::Running && request == Request::Start {
        assert(actions =~= seq![Action::CancelAndJoin, Action::Launch]);
    }
}

} // verus!
