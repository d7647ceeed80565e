//! What holds of the fetch adapter on every input, proved of the model that
//! the contracts of [`create_request`](super::create_request) and
//! [`poll_request`](super::poll_request) are stated over.

use super::{
    advance_spec, created, evaluation_at, is_success_status, outcome_of, poll_spec, state_after,
    EvaluationView, FetchError, HandleView, Phase, PollStateView, ReadyState, SetupCall,
    SetupStepView, SetupView, SnapshotView,
};
use vstd::prelude::*;

verus! {

/// The setup calls are made in the order open, set the response type, send.
/// The request is issued when the third has succeeded, and it then stands at
/// the start: to the same path, never evaluated. A call that fails ends the
/// setup with the error of that call, so that no later call is asked for.
pub proof fn law_setup_order(path: Seq<char>, setup: SetupView)
    ensures
        created(path).call == SetupCall::Open,
        advance_spec(created(path), true) == SetupStepView::Call(
            SetupView { path, call: SetupCall::SetResponseType },
        ),
        advance_spec(SetupView { path, call: SetupCall::SetResponseType }, true)
            == SetupStepView::Call(SetupView { path, call: SetupCall::Send }),
        advance_spec(SetupView { path, call: SetupCall::Send }, true) == SetupStepView::Issued(
            HandleView { path, phase: Phase::Issued },
        ),
        advance_spec(setup, false) == SetupStepView::Failed(
            FetchError::ConstructionFailed(setup.call),
        ),
{
}

/// An evaluation never moves a handle back: the path stays, a handle that was
/// evaluated is never again as it was issued, and a resolved handle stays
/// resolved.
pub proof fn law_phases_advance(handle: HandleView, snapshot: SnapshotView)
    ensures
        poll_spec(handle, snapshot).0.path == handle.path,
        !(poll_spec(handle, snapshot).0.phase is Issued),
        handle.phase is Resolved ==> poll_spec(handle, snapshot).0 == handle,
        poll_spec(handle, snapshot).1.state is Ready <==> poll_spec(
            handle,
            snapshot,
        ).0.phase is Resolved,
{
}

/// While the host reports a success status, an unresolved request resolves
/// exactly when the host is done, and then to the payload where the host
/// holds a binary buffer.
pub proof fn law_success_waits_for_done(handle: HandleView, snapshot: SnapshotView)
    requires
        !(handle.phase is Resolved),
        is_success_status(snapshot.status),
    ensures
        poll_spec(handle, snapshot).1.state is Ready <==> snapshot.ready_state == ReadyState::Done,
        snapshot.ready_state == ReadyState::Done ==> (snapshot.payload matches Some(bytes)
            ==> poll_spec(handle, snapshot).1.state == PollStateView::Ready(Ok(bytes))),
{
}

proof fn lemma_unresolved_before_done(handle: HandleView, trace: Seq<SnapshotView>)
    requires
        !(handle.phase is Resolved),
        forall|i: int|
            #![trigger trace[i]]
            0 <= i < trace.len() ==> is_success_status(trace[i].status) && trace[i].ready_state
                != ReadyState::Done,
    ensures
        !(state_after(handle, trace).phase is Resolved),
    decreases trace.len(),
{
    if trace.len() > 0 {
        let front = trace.drop_last();
        assert forall|i: int| #![trigger front[i]] 0 <= i < front.len() implies is_success_status(
            front[i].status,
        ) && front[i].ready_state != ReadyState::Done by {
            assert(front[i] == trace[i]);
        }
        lemma_unresolved_before_done(handle, front);
        assert(is_success_status(trace.last().status));
    }
}

/// A request whose host reports a success status all along, is done at the
/// last look and at no earlier one, and then holds a binary payload: every
/// evaluation before the last is pending, and the last resolves to the
/// payload.
pub proof fn law_fetch_resolves_to_payload(
    handle: HandleView,
    trace: Seq<SnapshotView>,
    bytes: Seq<u8>,
)
    requires
        !(handle.phase is Resolved),
        trace.len() > 0,
        forall|i: int| #![trigger trace[i]] 0 <= i < trace.len() ==> is_success_status(trace[i].status),
        forall|i: int|
            #![trigger trace[i]]
            0 <= i < trace.len() - 1 ==> trace[i].ready_state != ReadyState::Done,
        trace.last().ready_state == ReadyState::Done,
        trace.last().payload == Some(bytes),
    ensures
        forall|i: int|
            0 <= i < trace.len() - 1 ==> (#[trigger] evaluation_at(handle, trace, i)).state
                == PollStateView::Pending,
        evaluation_at(handle, trace, trace.len() - 1).state == PollStateView::Ready(Ok(bytes)),
        state_after(handle, trace).phase == Phase::Resolved(Ok(bytes)),
{
    assert forall|i: int| 0 <= i < trace.len() implies !(state_after(
        handle,
        #[trigger] trace.take(i),
    ).phase is Resolved) by {
        let front = trace.take(i);
        assert forall|j: int| #![trigger front[j]] 0 <= j < front.len() implies is_success_status(
            front[j].status,
        ) && front[j].ready_state != ReadyState::Done by {
            assert(front[j] == trace[j]);
        }
        lemma_unresolved_before_done(handle, front);
    }
    assert forall|i: int| 0 <= i < trace.len() - 1 implies (#[trigger] evaluation_at(
        handle,
        trace,
        i,
    )).state == PollStateView::Pending by {
        assert(!(state_after(handle, trace.take(i)).phase is Resolved));
        assert(is_success_status(trace[i].status));
    }
    let last = trace.len() - 1;
    assert(trace.take(last) == trace.drop_last());
    assert(!(state_after(handle, trace.take(last)).phase is Resolved));
    assert(is_success_status(trace[last].status));
}

/// Once the host is done with a status that is neither 0 nor a success, an
/// unresolved request resolves to the error for such a status.
pub proof fn law_non_success_status_fails(handle: HandleView, snapshot: SnapshotView)
    requires
        !(handle.phase is Resolved),
        snapshot.ready_state == ReadyState::Done,
        snapshot.status != 0,
        !is_success_status(snapshot.status),
    ensures
        poll_spec(handle, snapshot).1.state == PollStateView::Ready(
            Err(FetchError::NonSuccessStatus),
        ),
        poll_spec(handle, snapshot).0.phase == Phase::Resolved(Err(FetchError::NonSuccessStatus)),
{
}

proof fn lemma_pending_after_pending_polls(handle: HandleView, trace: Seq<SnapshotView>)
    requires
        !(handle.phase is Resolved),
        trace.len() > 0,
        forall|i: int| #![trigger trace[i]] 0 <= i < trace.len() ==> outcome_of(trace[i]) is None,
    ensures
        state_after(handle, trace) == (HandleView { path: handle.path, phase: Phase::Pending }),
    decreases trace.len(),
{
    let front = trace.drop_last();
    assert(outcome_of(trace[trace.len() - 1]) is None);
    if front.len() > 0 {
        assert forall|i: int| #![trigger front[i]] 0 <= i < front.len() implies outcome_of(
            front[i],
        ) is None by {
            assert(front[i] == trace[i]);
        }
        lemma_pending_after_pending_polls(handle, front);
    }
}

/// Polling a request that stays pending changes nothing after the first
/// evaluation. However often it is evaluated while the host shows nothing
/// final, the handle stays as the first evaluation left it, and every
/// evaluation after the first asks for no listeners and reports pending
/// again.
pub proof fn law_pending_polls_idempotent(handle: HandleView, trace: Seq<SnapshotView>, i: int)
    requires
        !(handle.phase is Resolved),
        forall|j: int| #![trigger trace[j]] 0 <= j < trace.len() ==> outcome_of(trace[j]) is None,
        0 < i < trace.len(),
    ensures
        evaluation_at(handle, trace, 0).state == PollStateView::Pending,
        evaluation_at(handle, trace, i) == (EvaluationView {
            install_listeners: false,
            state: PollStateView::Pending,
        }),
        state_after(handle, trace.take(i + 1)) == state_after(handle, trace.take(1)),
{
    assert(trace.take(0).len() == 0);
    assert(outcome_of(trace[0]) is None);
    assert(outcome_of(trace[i]) is None);
    assert forall|n: int| 0 < n <= trace.len() implies state_after(handle, #[trigger] trace.take(n))
        == (HandleView { path: handle.path, phase: Phase::Pending }) by {
        let front = trace.take(n);
        assert forall|j: int| #![trigger front[j]] 0 <= j < front.len() implies outcome_of(
            front[j],
        ) is None by {
            assert(front[j] == trace[j]);
        }
        lemma_pending_after_pending_polls(handle, front);
    }
    assert(state_after(handle, trace.take(i)).phase == Phase::Pending);
    assert(state_after(handle, trace.take(i + 1)).phase == Phase::Pending);
    assert(state_after(handle, trace.take(1)).phase == Phase::Pending);
}

proof fn lemma_resolved_stays(handle: HandleView, trace: Seq<SnapshotView>)
    requires
        handle.phase is Resolved,
    ensures
        state_after(handle, trace) == handle,
    decreases trace.len(),
{
    if trace.len() > 0 {
        lemma_resolved_stays(handle, trace.drop_last());
    }
}

/// A request resolves once: after an evaluation has reported an outcome, every
/// later evaluation reports the same outcome, whatever the host shows in
/// between and then, and changes nothing.
pub proof fn law_resolves_once(
    handle: HandleView,
    snapshot: SnapshotView,
    between: Seq<SnapshotView>,
    again: SnapshotView,
)
    requires
        poll_spec(handle, snapshot).1.state is Ready,
    ensures
        state_after(poll_spec(handle, snapshot).0, between) == poll_spec(handle, snapshot).0,
        poll_spec(state_after(poll_spec(handle, snapshot).0, between), again).0 == poll_spec(
            handle,
            snapshot,
        ).0,
        poll_spec(state_after(poll_spec(handle, snapshot).0, between), again).1 == (EvaluationView {
            install_listeners: false,
            state: poll_spec(handle, snapshot).1.state,
        }),
{
    lemma_resolved_stays(poll_spec(handle, snapshot).0, between);
}

proof fn lemma_evaluated_is_not_issued(handle: HandleView, trace: Seq<SnapshotView>)
    requires
        trace.len() > 0,
    ensures
        !(state_after(handle, trace).phase is Issued),
{
}

/// The listeners are asked for once in the life of a request: by the first
/// evaluation of a handle as it was issued, and by no later one.
pub proof fn law_listeners_installed_once(handle: HandleView, trace: Seq<SnapshotView>, i: int)
    requires
        handle.phase is Issued,
        0 <= i < trace.len(),
    ensures
        evaluation_at(handle, trace, i).install_listeners <==> i == 0,
{
    if i > 0 {
        lemma_evaluated_is_not_issued(handle, trace.take(i));
    } else {
        assert(trace.take(0).len() == 0);
    }
}

} // verus!
