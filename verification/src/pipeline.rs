//! The pipeline's state machine. Control flows strictly through the five
//! stages; a stage's failure moves straight to the terminal aborted state
//! and no later stage runs. No stage is re-entered and there are no
//! backward transitions.

use vstd::prelude::*;

verus! {

/// One of the five stages, in pipeline order.
#[derive(Clone, Copy, Debug, PartialEq, Eq, Structural)]
pub enum Stage {
    /// Install the build-time packages.
    InstallDeps,
    /// Clone and build the noise-suppression library.
    BuildLibrary,
    /// Clone the toolkit's repository.
    CloneToolkit,
    /// Configure, compile and install the toolkit.
    BuildToolkit,
    /// Check the installed toolkit's version and filter listing.
    Verify,
}

/// The pipeline's control state: how far it has come, or that it aborted.
#[derive(Clone, Copy, Debug, PartialEq, Eq, Structural)]
pub enum State {
    /// Nothing has run yet.
    Start,
    /// The dependency installer succeeded.
    DepsInstalled,
    /// The noise-suppression library stage succeeded.
    LibraryBuilt,
    /// The toolkit's clone step succeeded.
    ToolkitCloned,
    /// The toolkit's configure/compile/install succeeded.
    ToolkitBuilt,
    /// The verification checks succeeded; the pipeline is done.
    Verified,
    /// Some stage failed; the pipeline stopped there.
    Aborted,
}

/// The stage that runs next from a state, if any. The two terminal states
/// have none.
pub open spec fn pending_stage(s: State) -> Option<Stage> {
    match s {
        State::Start => Some(Stage::InstallDeps),
        State::DepsInstalled => Some(Stage::BuildLibrary),
        State::LibraryBuilt => Some(Stage::CloneToolkit),
        State::ToolkitCloned => Some(Stage::BuildToolkit),
        State::ToolkitBuilt => Some(Stage::Verify),
        State::Verified => None,
        State::Aborted => None,
    }
}

/// Where the pipeline stands after its pending stage reports `success`.
/// Failure of any stage leads to the aborted state; a terminal state does
/// not move.
pub open spec fn next_state_spec(s: State, success: bool) -> State {
    if pending_stage(s) is None {
        s
    } else if !success {
        State::Aborted
    } else {
        match s {
            State::Start => State::DepsInstalled,
            State::DepsInstalled => State::LibraryBuilt,
            State::LibraryBuilt => State::ToolkitCloned,
            State::ToolkitCloned => State::ToolkitBuilt,
            State::ToolkitBuilt => State::Verified,
            State::Verified => State::Verified,
            State::Aborted => State::Aborted,
        }
    }
}

/// The state the pipeline starts from once the host has been examined:
/// only a Unix-like host may run any stage; any other host is fatal
/// immediately, before the first stage.
pub fn startup_state(unix_host: bool) -> (r: State)
    ensures
        r == if unix_host {
            State::Start
        } else {
            State::Aborted
        },
        !unix_host ==> pending_stage(r) is None,
{
    if unix_host {
        State::Start
    } else {
        State::Aborted
    }
}

/// The stage that runs next from `s`, if any.
pub fn next_stage(s: State) -> (r: Option<Stage>)
    ensures
        r == pending_stage(s),
{
    match s {
        State::Start => Some(Stage::InstallDeps),
        State::DepsInstalled => Some(Stage::BuildLibrary),
        State::LibraryBuilt => Some(Stage::CloneToolkit),
        State::ToolkitCloned => Some(Stage::BuildToolkit),
        State::ToolkitBuilt => Some(Stage::Verify),
        State::Verified => None,
        State::Aborted => None,
    }
}

/// Advances the state machine by one stage outcome.
pub fn advance(s: State, success: bool) -> (r: State)
    ensures
        r == next_state_spec(s, success),
{
    match s {
        State::Verified => State::Verified,
        State::Aborted => State::Aborted,
        _ => {
            if !success {
                State::Aborted
            } else {
                match s {
                    State::Start => State::DepsInstalled,
                    State::DepsInstalled => State::LibraryBuilt,
                    State::LibraryBuilt => State::ToolkitCloned,
                    State::ToolkitCloned => State::ToolkitBuilt,
                    _ => State::Verified,
                }
            }
        },
    }
}

/// The state after feeding a whole sequence of stage outcomes, first
/// outcome first, stopping at a terminal state.
pub open spec fn run_spec(s: State, outcomes: Seq<bool>) -> State
    decreases outcomes.len(),
{
    if outcomes.len() == 0 || pending_stage(s) is None {
        s
    } else {
        run_spec(next_state_spec(s, outcomes[0]), outcomes.drop_first())
    }
}

/// The stages attempted while feeding those outcomes, in order.
pub open spec fn trace_spec(s: State, outcomes: Seq<bool>) -> Seq<Stage>
    decreases outcomes.len(),
{
    if outcomes.len() == 0 || pending_stage(s) is None {
        Seq::empty()
    } else {
        seq![pending_stage(s)->Some_0] + trace_spec(
            next_state_spec(s, outcomes[0]),
            outcomes.drop_first(),
        )
    }
}

/// A failed stage halts the pipeline: the machine moves to the aborted
/// state, from which no stage is pending, so no later stage ever runs.
pub proof fn lemma_failure_halts(s: State, later: Seq<bool>)
    requires
        pending_stage(s) is Some,
    ensures
        next_state_spec(s, false) == State::Aborted,
        pending_stage(State::Aborted) is None,
        run_spec(next_state_spec(s, false), later) == State::Aborted,
        trace_spec(next_state_spec(s, false), later) == Seq::<Stage>::empty(),
{
}

/// How many stages still lie ahead of a state.
pub open spec fn stages_remaining(s: State) -> nat {
    match s {
        State::Start => 5,
        State::DepsInstalled => 4,
        State::LibraryBuilt => 3,
        State::ToolkitCloned => 2,
        State::ToolkitBuilt => 1,
        State::Verified => 0,
        State::Aborted => 0,
    }
}

/// When the first failure comes at position `k`, the pipeline ends
/// aborted, and exactly the `k + 1` stages up to and including the failed
/// one were attempted: nothing after a failure runs.
pub proof fn lemma_halts_at_first_failure(s: State, outcomes: Seq<bool>, k: int)
    requires
        0 <= k < outcomes.len(),
        k < stages_remaining(s),
        forall|i: int| 0 <= i < k ==> outcomes[i],
        !outcomes[k],
    ensures
        run_spec(s, outcomes) == State::Aborted,
        trace_spec(s, outcomes).len() == k + 1,
    decreases k,
{
    if k == 0 {
        lemma_failure_halts(s, outcomes.drop_first());
    } else {
        lemma_halts_at_first_failure(next_state_spec(s, outcomes[0]), outcomes.drop_first(), k - 1);
    }
}

/// When all five stages succeed, the pipeline reaches the verified state,
/// the stages were attempted exactly in their fixed order, and the exit
/// status is success.
pub proof fn lemma_all_success_completes(outcomes: Seq<bool>)
    requires
        outcomes.len() == 5,
        forall|i: int| 0 <= i < 5 ==> outcomes[i],
    ensures
        run_spec(State::Start, outcomes) == State::Verified,
        trace_spec(State::Start, outcomes) == seq![
            Stage::InstallDeps,
            Stage::BuildLibrary,
            Stage::CloneToolkit,
            Stage::BuildToolkit,
            Stage::Verify,
        ],
        exit_code_spec(run_spec(State::Start, outcomes)) == 0,
{
    let o1 = outcomes.drop_first();
    let o2 = o1.drop_first();
    let o3 = o2.drop_first();
    let o4 = o3.drop_first();
    let o5 = o4.drop_first();
    assert(run_spec(State::Start, outcomes) == run_spec(State::DepsInstalled, o1));
    assert(run_spec(State::DepsInstalled, o1) == run_spec(State::LibraryBuilt, o2));
    assert(run_spec(State::LibraryBuilt, o2) == run_spec(State::ToolkitCloned, o3));
    assert(run_spec(State::ToolkitCloned, o3) == run_spec(State::ToolkitBuilt, o4));
    assert(run_spec(State::ToolkitBuilt, o4) == run_spec(State::Verified, o5));
    assert(trace_spec(State::Start, outcomes) == seq![Stage::InstallDeps] + trace_spec(
        State::DepsInstalled,
        o1,
    ));
    assert(trace_spec(State::DepsInstalled, o1) == seq![Stage::BuildLibrary] + trace_spec(
        State::LibraryBuilt,
        o2,
    ));
    assert(trace_spec(State::LibraryBuilt, o2) == seq![Stage::CloneToolkit] + trace_spec(
        State::ToolkitCloned,
        o3,
    ));
    assert(trace_spec(State::ToolkitCloned, o3) == seq![Stage::BuildToolkit] + trace_spec(
        State::ToolkitBuilt,
        o4,
    ));
    assert(trace_spec(State::ToolkitBuilt, o4) == seq![Stage::Verify] + trace_spec(
        State::Verified,
        o5,
    ));
    assert(trace_spec(State::Verified, o5) =~= Seq::<Stage>::empty());
    assert(trace_spec(State::Start, outcomes) =~= seq![
        Stage::InstallDeps,
        Stage::BuildLibrary,
        Stage::CloneToolkit,
        Stage::BuildToolkit,
        Stage::Verify,
    ]);
}

/// The verifier's decision settles the program's exit status: from the
/// last pre-verification state, a passing check ends with status 0 and a
/// failing one with status 1.
pub proof fn lemma_verifier_decides_exit(ok: bool)
    ensures
        exit_code_spec(next_state_spec(State::ToolkitBuilt, ok)) == if ok {
            0int
        } else {
            1int
        },
{
}

/// The exit status the program ends with from a final state: success only
/// when every stage, verification included, succeeded.
pub open spec fn exit_code_spec(s: State) -> int {
    if s == State::Verified {
        0
    } else {
        1
    }
}

/// The exit status for a final state.
pub fn exit_code(s: State) -> (r: i32)
    ensures
        r == exit_code_spec(s),
{
    match s {
        State::Verified => 0,
        _ => 1,
    }
}

/// Replays a sequence of stage outcomes from the start state, returning the
/// stages attempted (in order) and the final state.
pub fn simulate(outcomes: &Vec<bool>) -> (r: (Vec<Stage>, State))
    ensures
        r.0@ == trace_spec(State::Start, outcomes@),
        r.1 == run_spec(State::Start, outcomes@),
{
    proof {
        assert(outcomes@.skip(0) =~= outcomes@);
    }
    simulate_from(State::Start, outcomes, 0)
}

fn simulate_from(s: State, outcomes: &Vec<bool>, i: usize) -> (r: (Vec<Stage>, State))
    requires
        i <= outcomes@.len(),
    ensures
        r.0@ == trace_spec(s, outcomes@.skip(i as int)),
        r.1 == run_spec(s, outcomes@.skip(i as int)),
    decreases outcomes@.len() - i,
{
    let pending = next_stage(s);
    if i == outcomes.len() || pending.is_none() {
        let r = (Vec::new(), s);
        proof {
            if i == outcomes@.len() {
                assert(outcomes@.skip(i as int) =~= Seq::<bool>::empty());
            }
            assert(r.0@ =~= trace_spec(s, outcomes@.skip(i as int)));
        }
        r
    } else {
        let stage = pending.unwrap();
        let next = advance(s, outcomes[i]);
        let (mut rest_trace, end) = simulate_from(next, outcomes, i + 1);
        let mut trace: Vec<Stage> = Vec::new();
        trace.push(stage);
        trace.append(&mut rest_trace);
        proof {
            let tail = outcomes@.skip(i as int);
            assert(tail[0] == outcomes@[i as int]);
            assert(tail.drop_first() =~= outcomes@.skip(i as int + 1));
            assert(trace@ =~= trace_spec(s, tail));
        }
        (trace, end)
    }
}

} // verus!
