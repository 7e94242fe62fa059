//! Protocol laws: properties of whole runs of the session state machine,
//! proved once and for all over arbitrary event traces.

use vstd::prelude::*;
use crate::auth::token_valid;
use crate::output::concat_bytes;
use crate::session::{
    spec_step, Action, ClientMessage, Event, FailureReason, JobSpec, JobStatus, RejectReason,
    ServerMessage, SessionState,
};

verus! {

/// The state a session reaches after consuming a trace of events.
pub open spec fn run_state(s: SessionState, evs: Seq<Event>, trusted: Seq<Seq<u8>>) -> SessionState
    decreases evs.len(),
{
    if evs.len() == 0 {
        s
    } else {
        run_state(spec_step(s, evs[0], trusted).0, evs.drop_first(), trusted)
    }
}

/// Every action a session performs while consuming a trace, in order.
pub open spec fn run_actions(s: SessionState, evs: Seq<Event>, trusted: Seq<Seq<u8>>) -> Seq<
    Action,
>
    decreases evs.len(),
{
    if evs.len() == 0 {
        Seq::<Action>::empty()
    } else {
        spec_step(s, evs[0], trusted).1 + run_actions(
            spec_step(s, evs[0], trusted).0,
            evs.drop_first(),
            trusted,
        )
    }
}

/// The payloads of the `OutputChunk` messages among a list of actions, in
/// order.
pub open spec fn sent_chunks(acts: Seq<Action>) -> Seq<Seq<u8>>
    decreases acts.len(),
{
    if acts.len() == 0 {
        Seq::<Seq<u8>>::empty()
    } else {
        let rest = sent_chunks(acts.drop_first());
        match acts[0] {
            Action::Send(ServerMessage::OutputChunk(b)) => seq![b@] + rest,
            _ => rest,
        }
    }
}

/// The payloads of the `WorkloadOutput` events in a trace, in order: the
/// byte chunks the workload actually produced.
pub open spec fn event_chunks(evs: Seq<Event>) -> Seq<Seq<u8>>
    decreases evs.len(),
{
    if evs.len() == 0 {
        Seq::<Seq<u8>>::empty()
    } else {
        let rest = event_chunks(evs.drop_first());
        match evs[0] {
            Event::WorkloadOutput(b) => seq![b@] + rest,
            _ => rest,
        }
    }
}

/// How many jobs a list of actions dispatches to the executor.
pub open spec fn dispatch_count(acts: Seq<Action>) -> nat
    decreases acts.len(),
{
    if acts.len() == 0 {
        0
    } else {
        (if acts[0] is Dispatch {
            1nat
        } else {
            0nat
        }) + dispatch_count(acts.drop_first())
    }
}

/// A closed session stays closed and never acts again.
pub proof fn lemma_closed_absorbing(evs: Seq<Event>, trusted: Seq<Seq<u8>>)
    ensures
        run_state(SessionState::Closed, evs, trusted) == SessionState::Closed,
        run_actions(SessionState::Closed, evs, trusted) == Seq::<Action>::empty(),
    decreases evs.len(),
{
    if evs.len() > 0 {
        lemma_closed_absorbing(evs.drop_first(), trusted);
        assert(run_actions(SessionState::Closed, evs, trusted) =~= Seq::<Action>::empty());
    }
}

/// An unauthorized token is answered with `Rejected` followed by `Close`,
/// and the session, once closed, never reaches `JobReceived` — no job is
/// ever dispatched for it.
pub proof fn lemma_unauthorized_never_reaches_job(
    tok: Vec<u8>,
    evs: Seq<Event>,
    trusted: Seq<Seq<u8>>,
)
    requires
        evs.len() > 0,
        evs[0] == (Event::Received(ClientMessage::Authenticate { token: tok })),
        !token_valid(trusted, tok@),
    ensures
        forall|i: int|
            1 <= i <= evs.len() ==> run_state(SessionState::Connected, #[trigger] evs.take(i), trusted)
                == SessionState::Closed,
        forall|i: int|
            0 <= i <= evs.len() ==> run_state(SessionState::Connected, #[trigger] evs.take(i), trusted)
                != SessionState::JobReceived,
        run_actions(SessionState::Connected, evs, trusted) == seq![
            Action::Send(ServerMessage::Rejected(RejectReason::InvalidToken)),
            Action::Close,
        ],
        dispatch_count(run_actions(SessionState::Connected, evs, trusted)) == 0,
{
    assert(spec_step(SessionState::Connected, evs[0], trusted).0 == SessionState::Closed);
    assert forall|i: int| 1 <= i <= evs.len() implies run_state(
        SessionState::Connected,
        #[trigger] evs.take(i),
        trusted,
    ) == SessionState::Closed by {
        let t = evs.take(i);
        assert(t[0] == evs[0]);
        lemma_closed_absorbing(t.drop_first(), trusted);
    }
    assert(evs.take(0) =~= Seq::<Event>::empty());
    lemma_closed_absorbing(evs.drop_first(), trusted);
    let full = run_actions(SessionState::Connected, evs, trusted);
    assert(full =~= seq![
        Action::Send(ServerMessage::Rejected(RejectReason::InvalidToken)),
        Action::Close,
    ]);
    lemma_dispatch_count_zero(full);
}

/// From any state past `Authenticated`, a session never dispatches another
/// job, whatever else happens.
pub proof fn lemma_no_dispatch_after_accept(s: SessionState, evs: Seq<Event>, trusted: Seq<Seq<u8>>)
    requires
        s != SessionState::Connected,
        s != SessionState::Authenticated,
    ensures
        dispatch_count(run_actions(s, evs, trusted)) == 0,
    decreases evs.len(),
{
    if evs.len() > 0 {
        let step = spec_step(s, evs[0], trusted);
        lemma_no_dispatch_after_accept(step.0, evs.drop_first(), trusted);
        lemma_dispatch_count_add(step.1, run_actions(step.0, evs.drop_first(), trusted));
        lemma_step_dispatch_count(s, evs[0], trusted);
    }
}

/// A list of actions without a `Dispatch` dispatches nothing.
pub proof fn lemma_dispatch_count_zero(acts: Seq<Action>)
    requires
        forall|i: int| 0 <= i < acts.len() ==> !(#[trigger] acts[i] is Dispatch),
    ensures
        dispatch_count(acts) == 0,
    decreases acts.len(),
{
    if acts.len() > 0 {
        assert(forall|i: int|
            0 <= i < acts.drop_first().len() ==> acts.drop_first()[i] == acts[i + 1]);
        lemma_dispatch_count_zero(acts.drop_first());
    }
}

/// `dispatch_count` is bounded by the number of actions.
pub proof fn lemma_dispatch_count_le_len(acts: Seq<Action>)
    ensures
        dispatch_count(acts) <= acts.len(),
    decreases acts.len(),
{
    if acts.len() > 0 {
        lemma_dispatch_count_le_len(acts.drop_first());
    }
}

/// A single step dispatches at most one job, and only the step that
/// accepts a `SubmitJob` in state `Authenticated` dispatches at all.
pub proof fn lemma_step_dispatch_count(s: SessionState, ev: Event, trusted: Seq<Seq<u8>>)
    ensures
        dispatch_count(spec_step(s, ev, trusted).1) <= 1,
        !(s == SessionState::Authenticated && ev matches Event::Received(
            ClientMessage::SubmitJob { job: _ },
        )) ==> dispatch_count(spec_step(s, ev, trusted).1) == 0,
{
    let acts = spec_step(s, ev, trusted).1;
    lemma_dispatch_count_le_len(acts);
    if s == SessionState::Authenticated && ev matches Event::Received(
        ClientMessage::SubmitJob { job: _ },
    ) {
        assert(acts.len() == 1);
    } else {
        assert forall|i: int| 0 <= i < acts.len() implies !(#[trigger] acts[i] is Dispatch) by {}
        lemma_dispatch_count_zero(acts);
    }
}

/// `dispatch_count` distributes over concatenation.
pub proof fn lemma_dispatch_count_add(a: Seq<Action>, b: Seq<Action>)
    ensures
        dispatch_count(a + b) == dispatch_count(a) + dispatch_count(b),
    decreases a.len(),
{
    if a.len() == 0 {
        assert(a + b =~= b);
    } else {
        assert((a + b).drop_first() =~= a.drop_first() + b);
        assert((a + b)[0] == a[0]);
        lemma_dispatch_count_add(a.drop_first(), b);
    }
}

/// At most one job is ever dispatched per session: whatever trace of events
/// a fresh connection consumes, the executor is invoked at most once.
pub proof fn lemma_at_most_one_job(s: SessionState, evs: Seq<Event>, trusted: Seq<Seq<u8>>)
    requires
        s == SessionState::Connected || s == SessionState::Authenticated,
    ensures
        dispatch_count(run_actions(s, evs, trusted)) <= 1,
    decreases evs.len(),
{
    if evs.len() > 0 {
        let step = spec_step(s, evs[0], trusted);
        lemma_dispatch_count_add(step.1, run_actions(step.0, evs.drop_first(), trusted));
        lemma_step_dispatch_count(s, evs[0], trusted);
        if step.0 == SessionState::Connected || step.0 == SessionState::Authenticated {
            lemma_at_most_one_job(step.0, evs.drop_first(), trusted);
        } else {
            lemma_no_dispatch_after_accept(step.0, evs.drop_first(), trusted);
        }
    }
}

/// Submitting a second job before the first reaches `Completed` or `Failed`
/// is a protocol violation: the session closes at once.
pub proof fn lemma_second_job_closes_session(s: SessionState, job: JobSpec, trusted: Seq<Seq<u8>>)
    requires
        s == SessionState::JobReceived || s == SessionState::Executing,
    ensures
        spec_step(s, Event::Received(ClientMessage::SubmitJob { job }), trusted).0
            == SessionState::Closed,
        spec_step(s, Event::Received(ClientMessage::SubmitJob { job }), trusted).1 == seq![
            Action::Kill,
            Action::Close,
        ],
{
}

/// Closing the owning session while a workload executes terminates the
/// execution handle: the one step the machine takes is to kill it, and no
/// further state ever re-starts it.
pub proof fn lemma_close_terminates_execution(trusted: Seq<Seq<u8>>)
    ensures
        spec_step(SessionState::Executing, Event::ClientClosed, trusted).0 == SessionState::Closed,
        spec_step(SessionState::Executing, Event::ClientClosed, trusted).1 == seq![Action::Kill],
{
}

/// No execution is orphaned: whenever a session leaves the dispatching or
/// executing phase for any reason other than the workload's own exit (or a
/// spawn that never happened), the step's actions terminate the execution
/// handle.
pub proof fn lemma_no_orphaned_execution(s: SessionState, ev: Event, trusted: Seq<Seq<u8>>)
    requires
        s == SessionState::JobReceived || s == SessionState::Executing,
        !(ev is WorkloadExited),
        !(ev is SpawnFailed),
        !(spec_step(s, ev, trusted).0 == SessionState::JobReceived || spec_step(s, ev, trusted).0
            == SessionState::Executing),
    ensures
        spec_step(s, ev, trusted).1.contains(Action::Kill),
{
    assert(spec_step(s, ev, trusted).1[0] == Action::Kill);
}

/// A timed-out workload is killed and reported `Failed` with reason
/// `Timeout`; the machine never reports `Completed` anywhere in the rest of
/// the session.
pub proof fn lemma_timeout_never_completed(evs: Seq<Event>, trusted: Seq<Seq<u8>>)
    requires
        evs.len() > 0,
        evs[0] == Event::TimedOut,
    ensures
        spec_step(SessionState::Executing, Event::TimedOut, trusted).0 == SessionState::Failed,
        spec_step(SessionState::Executing, Event::TimedOut, trusted).1 == seq![
            Action::Kill,
            Action::Send(ServerMessage::JobResult(JobStatus::Failed(FailureReason::Timeout))),
        ],
        !run_actions(SessionState::Executing, evs, trusted).contains(
            Action::Send(ServerMessage::JobResult(JobStatus::Completed)),
        ),
{
    let step = spec_step(SessionState::Executing, evs[0], trusted);
    lemma_no_completed_from_failed(step.0, evs.drop_first(), trusted);
    let rest = run_actions(step.0, evs.drop_first(), trusted);
    let full = run_actions(SessionState::Executing, evs, trusted);
    assert(full == step.1 + rest);
    assert forall|i: int| 0 <= i < full.len() implies full[i] != Action::Send(
        ServerMessage::JobResult(JobStatus::Completed),
    ) by {
        if i < step.1.len() {
            assert(full[i] == step.1[i]);
        } else {
            assert(full[i] == rest[i - step.1.len()]);
            assert(!rest.contains(rest[i - step.1.len()]) ==> false);
        }
    }
}

/// After a job has failed (or the session has closed), no `Completed`
/// result is ever sent.
pub proof fn lemma_no_completed_from_failed(s: SessionState, evs: Seq<Event>, trusted: Seq<Seq<u8>>)
    requires
        s == SessionState::Failed || s == SessionState::Closed,
    ensures
        !run_actions(s, evs, trusted).contains(
            Action::Send(ServerMessage::JobResult(JobStatus::Completed)),
        ),
    decreases evs.len(),
{
    let completed = Action::Send(ServerMessage::JobResult(JobStatus::Completed));
    if evs.len() > 0 {
        let step = spec_step(s, evs[0], trusted);
        lemma_no_completed_from_failed(step.0, evs.drop_first(), trusted);
        let rest = run_actions(step.0, evs.drop_first(), trusted);
        let full = run_actions(s, evs, trusted);
        assert(full == step.1 + rest);
        assert forall|i: int| 0 <= i < full.len() implies full[i] != completed by {
            if i < step.1.len() {
                assert(full[i] == step.1[i]);
            } else {
                assert(full[i] == rest[i - step.1.len()]);
                assert(!rest.contains(rest[i - step.1.len()]) ==> false);
            }
        }
    }
}

/// `sent_chunks` distributes over concatenation.
pub proof fn lemma_sent_chunks_add(a: Seq<Action>, b: Seq<Action>)
    ensures
        sent_chunks(a + b) == sent_chunks(a) + sent_chunks(b),
    decreases a.len(),
{
    if a.len() == 0 {
        assert(a + b =~= b);
        assert(sent_chunks(a) + sent_chunks(b) =~= sent_chunks(b));
    } else {
        assert((a + b).drop_first() =~= a.drop_first() + b);
        assert((a + b)[0] == a[0]);
        lemma_sent_chunks_add(a.drop_first(), b);
        assert(sent_chunks(a + b) =~= sent_chunks(a) + sent_chunks(b));
    }
}

/// Output round trip: while a workload runs, every chunk it produces is
/// forwarded unchanged and in order, so the concatenation of the sent
/// `OutputChunk` payloads equals the workload's byte stream exactly.
pub proof fn lemma_output_round_trip(evs: Seq<Event>, trusted: Seq<Seq<u8>>)
    requires
        forall|i: int| 0 <= i < evs.len() ==> #[trigger] evs[i] is WorkloadOutput,
    ensures
        run_state(SessionState::Executing, evs, trusted) == SessionState::Executing,
        sent_chunks(run_actions(SessionState::Executing, evs, trusted)) == event_chunks(evs),
        concat_bytes(sent_chunks(run_actions(SessionState::Executing, evs, trusted)))
            == concat_bytes(event_chunks(evs)),
    decreases evs.len(),
{
    if evs.len() == 0 {
        assert(sent_chunks(run_actions(SessionState::Executing, evs, trusted)) =~= event_chunks(
            evs,
        ));
    } else {
        assert(evs[0] is WorkloadOutput);
        let b = evs[0]->WorkloadOutput_0;
        let step = spec_step(SessionState::Executing, evs[0], trusted);
        assert(step.0 == SessionState::Executing);
        assert(step.1 == seq![Action::Send(ServerMessage::OutputChunk(b))]);
        lemma_output_round_trip(evs.drop_first(), trusted);
        lemma_sent_chunks_add(step.1, run_actions(SessionState::Executing, evs.drop_first(), trusted));
        assert(step.1.drop_first() =~= Seq::<Action>::empty());
        assert(sent_chunks(Seq::<Action>::empty()) == Seq::<Seq<u8>>::empty());
        assert(sent_chunks(step.1) =~= seq![b@]);
        assert(event_chunks(evs) =~= seq![b@] + event_chunks(evs.drop_first()));
        assert(sent_chunks(run_actions(SessionState::Executing, evs, trusted)) =~= event_chunks(
            evs,
        ));
    }
}

} // verus!
