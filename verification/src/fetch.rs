//! The fetch adapter: the decisions that take one GET request from its
//! creation to a single outcome.
//!
//! The host's request object signals completion by events. The adapter is the
//! state machine between that object and a pollable task. Its driver owns the
//! host object and alternates with the adapter: it makes the host call that
//! the adapter names and reports the result, and on each evaluation it hands
//! over a [`Snapshot`] of what the host object shows.

use vstd::prelude::*;

pub mod laws;

verus! {

/// The lifecycle of a host request, in the order in which the host passes
/// through it. `Done` is terminal.
#[derive(Clone, Copy, Debug, PartialEq, Eq, Structural)]
pub enum ReadyState {
    Unsent,
    Opened,
    HeadersReceived,
    Loading,
    Done,
}

/// How one look at the host's status and readiness is read.
#[derive(Clone, Copy, Debug, PartialEq, Eq, Structural)]
pub enum Verdict {
    /// Nothing final can be said yet.
    Pending,
    /// The request is complete and the host reports success.
    Success,
    /// The host reports a status that is no success.
    Failure,
}

/// A status in the range that HTTP reserves for success.
pub open spec fn is_success_status(status: u16) -> bool {
    200 <= status < 300
}

/// The reading of a status and a readiness state.
///
/// * Status 0 means that no response has arrived; it is pending whatever the
///   readiness, also at `Done`.
/// * A success status is a success once the request is `Done`, and pending
///   before.
/// * Any other status is a failure once the request is `Done`. Before that, a
///   status of 100 or more is a failure already, and a status below 100, which
///   no server sends, is pending.
pub open spec fn verdict_of(status: u16, ready_state: ReadyState) -> Verdict {
    if status == 0 {
        Verdict::Pending
    } else if is_success_status(status) {
        if ready_state == ReadyState::Done {
            Verdict::Success
        } else {
            Verdict::Pending
        }
    } else if ready_state == ReadyState::Done || status >= 100 {
        Verdict::Failure
    } else {
        Verdict::Pending
    }
}

/// Reads a status and a readiness state.
pub fn classify(status: u16, ready_state: ReadyState) -> (verdict: Verdict)
    ensures
        verdict == verdict_of(status, ready_state),
{
    let class: u16 = status / 100;
    let done: bool = matches!(ready_state, ReadyState::Done);
    if class == 2 {
        if done {
            Verdict::Success
        } else {
            Verdict::Pending
        }
    } else if status == 0 {
        Verdict::Pending
    } else if class == 0 && !done {
        Verdict::Pending
    } else {
        Verdict::Failure
    }
}


/// The host calls that issue a request, in the order in which they are made.
#[derive(Clone, Copy, Debug, PartialEq, Eq, Structural)]
pub enum SetupCall {
    /// Open a GET request to the path.
    Open,
    /// Ask for the response as a binary buffer, not as text.
    SetResponseType,
    /// Send the request.
    Send,
}

impl SetupCall {
    /// The call that is made after this one has succeeded, if any is left.
    pub open spec fn following(self) -> Option<SetupCall> {
        match self {
            SetupCall::Open => Some(SetupCall::SetResponseType),
            SetupCall::SetResponseType => Some(SetupCall::Send),
            SetupCall::Send => None,
        }
    }

    /// The call that is made after this one has succeeded, if any is left.
    pub fn next(self) -> (call: Option<SetupCall>)
        ensures
            call == self.following(),
    {
        match self {
            SetupCall::Open => Some(SetupCall::SetResponseType),
            SetupCall::SetResponseType => Some(SetupCall::Send),
            SetupCall::Send => None,
        }
    }
}

/// Why a fetch produced no payload.
#[derive(Clone, Copy, Debug, PartialEq, Eq, Structural)]
pub enum FetchError {
    /// The host refused the given call while the request was being issued.
    ConstructionFailed(SetupCall),
    /// The host reported a status that is no success.
    NonSuccessStatus,
    /// The completed response could not be read as a binary buffer.
    PayloadCastFailed,
}

impl FetchError {
    /// The text that describes this error.
    pub open spec fn message_of(self) -> Seq<char> {
        match self {
            FetchError::ConstructionFailed(SetupCall::Open) => "Failed to create a GET request"@,
            FetchError::ConstructionFailed(SetupCall::SetResponseType) =>
                "Failed to set the response type"@,
            FetchError::ConstructionFailed(SetupCall::Send) => "Failed to send a GET request"@,
            FetchError::NonSuccessStatus => "Non-200 status code returned"@,
            FetchError::PayloadCastFailed => "Failed to cast file into bytes"@,
        }
    }

    /// The text that describes this error.
    pub fn message(&self) -> (text: String)
        ensures
            text@ == self.message_of(),
    {
        let text: &str = match self {
            FetchError::ConstructionFailed(SetupCall::Open) => "Failed to create a GET request",
            FetchError::ConstructionFailed(SetupCall::SetResponseType) =>
                "Failed to set the response type",
            FetchError::ConstructionFailed(SetupCall::Send) => "Failed to send a GET request",
            FetchError::NonSuccessStatus => "Non-200 status code returned",
            FetchError::PayloadCastFailed => "Failed to cast file into bytes",
        };
        text.to_owned()
    }
}

/// The one result of a fetch, as a mathematical value.
pub type OutcomeView = Result<Seq<u8>, FetchError>;

/// The mathematical value of an outcome: the payload as a sequence of bytes.
pub open spec fn outcome_view(outcome: Result<Vec<u8>, FetchError>) -> OutcomeView {
    match outcome {
        Ok(bytes) => Ok(bytes@),
        Err(error) => Err(error),
    }
}

/// Where a request stands between being sent and its one outcome.
pub enum Phase {
    /// Sent, and never evaluated: no listener is installed.
    Issued,
    /// Evaluated at least once, listeners installed, no outcome yet.
    Pending,
    /// The outcome is fixed.
    Resolved(OutcomeView),
}

/// The mathematical value of a [`RequestHandle`].
pub struct HandleView {
    pub path: Seq<char>,
    pub phase: Phase,
}

/// The mathematical value of a [`RequestSetup`].
pub struct SetupView {
    pub path: Seq<char>,
    pub call: SetupCall,
}

/// The mathematical value of a [`SetupStep`].
pub enum SetupStepView {
    Call(SetupView),
    Issued(HandleView),
    Failed(FetchError),
}

/// The mathematical value of a [`Snapshot`].
pub struct SnapshotView {
    pub status: u16,
    pub ready_state: ReadyState,
    pub payload: Option<Seq<u8>>,
}

/// The mathematical value of a [`PollState`].
pub enum PollStateView {
    Pending,
    Ready(OutcomeView),
}

/// The mathematical value of an [`Evaluation`].
pub struct EvaluationView {
    pub install_listeners: bool,
    pub state: PollStateView,
}

#[derive(Debug)]
enum State {
    Issued,
    Pending,
    Resolved(Result<Vec<u8>, FetchError>),
}

/// A request that the host has accepted and sent. It is owned by the one task
/// that polls it.
#[derive(Debug)]
pub struct RequestHandle {
    path: String,
    state: State,
}

impl View for RequestHandle {
    type V = HandleView;

    closed spec fn view(&self) -> HandleView {
        HandleView {
            path: self.path@,
            phase: match self.state {
                State::Issued => Phase::Issued,
                State::Pending => Phase::Pending,
                State::Resolved(outcome) => Phase::Resolved(outcome_view(outcome)),
            },
        }
    }
}

/// A request that is being issued: some of its setup calls are still to be
/// made on the host.
#[derive(Debug)]
pub struct RequestSetup {
    path: String,
    call: SetupCall,
}

impl View for RequestSetup {
    type V = SetupView;

    closed spec fn view(&self) -> SetupView {
        SetupView { path: self.path@, call: self.call }
    }
}

/// What the driver does after it has reported the result of a setup call.
#[derive(Debug)]
pub enum SetupStep {
    /// Make the next call, which the setup names.
    Call(RequestSetup),
    /// Every call succeeded: the request is on its way.
    Issued(RequestHandle),
    /// A call failed: there is no request, and nothing is ever evaluated.
    Failed(FetchError),
}

impl View for SetupStep {
    type V = SetupStepView;

    open spec fn view(&self) -> SetupStepView {
        match self {
            SetupStep::Call(setup) => SetupStepView::Call(setup@),
            SetupStep::Issued(handle) => SetupStepView::Issued(handle@),
            SetupStep::Failed(error) => SetupStepView::Failed(*error),
        }
    }
}

/// The setup of a request to `path`, before any call was made.
pub open spec fn created(path: Seq<char>) -> SetupView {
    SetupView { path, call: SetupCall::Open }
}

/// The step that follows when the host has answered the call that `setup`
/// names. A failed call ends the setup with the error of that call. After the
/// last call has succeeded the request is issued.
pub open spec fn advance_spec(setup: SetupView, succeeded: bool) -> SetupStepView {
    if !succeeded {
        SetupStepView::Failed(FetchError::ConstructionFailed(setup.call))
    } else {
        match setup.call.following() {
            Some(call) => SetupStepView::Call(SetupView { path: setup.path, call }),
            None => SetupStepView::Issued(HandleView { path: setup.path, phase: Phase::Issued }),
        }
    }
}

/// Starts to issue a GET request to `path`. The host calls are made by the
/// driver, one by one and at once: the first is the one that the returned
/// setup names.
pub fn create_request(path: &str) -> (setup: RequestSetup)
    ensures
        setup@ == created(path@),
{
    RequestSetup { path: path.to_owned(), call: SetupCall::Open }
}

impl RequestSetup {
    /// The path that the request goes to.
    pub fn path(&self) -> (path: &str)
        ensures
            path@ == self@.path,
    {
        self.path.as_str()
    }

    /// The host call that is to be made now.
    pub fn call(&self) -> (call: SetupCall)
        ensures
            call == self@.call,
    {
        self.call
    }

    /// Takes the host's answer to the call that this setup names.
    pub fn advance(self, succeeded: bool) -> (step: SetupStep)
        ensures
            step@ == advance_spec(self@, succeeded),
    {
        if !succeeded {
            SetupStep::Failed(FetchError::ConstructionFailed(self.call))
        } else {
            match self.call.next() {
                Some(call) => SetupStep::Call(RequestSetup { path: self.path, call }),
                None => SetupStep::Issued(RequestHandle { path: self.path, state: State::Issued }),
            }
        }
    }
}


/// What the driver reads off the host's request object for one evaluation.
#[derive(Debug, PartialEq, Eq)]
pub struct Snapshot {
    /// The numeric status; 0 while no response has arrived.
    pub status: u16,
    /// The readiness state.
    pub ready_state: ReadyState,
    /// The raw response as bytes, where the host holds a binary buffer; `None`
    /// where it holds none or something else. It is read on success only.
    pub payload: Option<Vec<u8>>,
}

impl View for Snapshot {
    type V = SnapshotView;

    open spec fn view(&self) -> SnapshotView {
        SnapshotView {
            status: self.status,
            ready_state: self.ready_state,
            payload: match self.payload {
                Some(bytes) => Some(bytes@),
                None => None,
            },
        }
    }
}

/// What an evaluation tells the scheduler.
#[derive(Debug, PartialEq, Eq)]
pub enum PollState {
    /// Suspend the task until a listener wakes it.
    Pending,
    /// The task is complete, with this outcome.
    Ready(Result<Vec<u8>, FetchError>),
}

impl View for PollState {
    type V = PollStateView;

    open spec fn view(&self) -> PollStateView {
        match self {
            PollState::Pending => PollStateView::Pending,
            PollState::Ready(outcome) => PollStateView::Ready(outcome_view(*outcome)),
        }
    }
}

/// The result of one evaluation.
#[derive(Debug, PartialEq, Eq)]
pub struct Evaluation {
    /// Whether the driver is to register the two listeners, for load and for
    /// abort, that wake the task.
    pub install_listeners: bool,
    /// What the scheduler is told.
    pub state: PollState,
}

impl View for Evaluation {
    type V = EvaluationView;

    open spec fn view(&self) -> EvaluationView {
        EvaluationView { install_listeners: self.install_listeners, state: self.state@ }
    }
}

/// The outcome that a snapshot fixes, if it fixes one: the payload on
/// success, an error where the payload is no binary buffer or where the status
/// is no success.
pub open spec fn outcome_of(snapshot: SnapshotView) -> Option<OutcomeView> {
    match verdict_of(snapshot.status, snapshot.ready_state) {
        Verdict::Pending => None,
        Verdict::Success => Some(
            match snapshot.payload {
                Some(bytes) => Ok(bytes),
                None => Err(FetchError::PayloadCastFailed),
            },
        ),
        Verdict::Failure => Some(Err(FetchError::NonSuccessStatus)),
    }
}

/// One evaluation: the handle after it, and what it reports.
///
/// A resolved handle stays as it is and repeats its outcome, whatever the
/// snapshot shows. Otherwise the listeners are asked for if this is the first
/// evaluation, and the snapshot decides: the handle resolves to the outcome
/// that the snapshot fixes, or is pending.
pub open spec fn poll_spec(handle: HandleView, snapshot: SnapshotView) -> (
    HandleView,
    EvaluationView,
) {
    match handle.phase {
        Phase::Resolved(outcome) => (
            handle,
            EvaluationView { install_listeners: false, state: PollStateView::Ready(outcome) },
        ),
        _ => {
            let install_listeners = handle.phase is Issued;
            match outcome_of(snapshot) {
                Some(outcome) => (
                    HandleView { path: handle.path, phase: Phase::Resolved(outcome) },
                    EvaluationView { install_listeners, state: PollStateView::Ready(outcome) },
                ),
                None => (
                    HandleView { path: handle.path, phase: Phase::Pending },
                    EvaluationView { install_listeners, state: PollStateView::Pending },
                ),
            }
        },
    }
}

fn copy_outcome(outcome: &Result<Vec<u8>, FetchError>) -> (copy: Result<Vec<u8>, FetchError>)
    ensures
        outcome_view(copy) == outcome_view(*outcome),
{
    match outcome {
        Ok(bytes) => Ok(bytes.clone()),
        Err(error) => Err(*error),
    }
}

impl RequestHandle {
    /// The path that the request went to.
    pub fn path(&self) -> (path: &str)
        ensures
            path@ == self@.path,
    {
        self.path.as_str()
    }

    /// Whether the listeners were asked for, which is the case from the first
    /// evaluation on.
    pub fn listeners_installed(&self) -> (installed: bool)
        ensures
            installed == !(self@.phase is Issued),
    {
        !matches!(self.state, State::Issued)
    }

    /// Whether the outcome is fixed.
    pub fn is_resolved(&self) -> (resolved: bool)
        ensures
            resolved == (self@.phase is Resolved),
    {
        matches!(self.state, State::Resolved(_))
    }
}

/// Evaluates the request once, for the scheduler, on what the host shows now.
pub fn poll_request(handle: &mut RequestHandle, snapshot: Snapshot) -> (evaluation: Evaluation)
    ensures
        final(handle)@ == poll_spec(old(handle)@, snapshot@).0,
        evaluation@ == poll_spec(old(handle)@, snapshot@).1,
{
    if let State::Resolved(outcome) = &handle.state {
        return Evaluation {
            install_listeners: false,
            state: PollState::Ready(copy_outcome(outcome)),
        };
    }
    let install_listeners: bool = matches!(handle.state, State::Issued);
    let outcome: Result<Vec<u8>, FetchError> = match classify(snapshot.status, snapshot.ready_state) {
        Verdict::Pending => {
            handle.state = State::Pending;
            return Evaluation { install_listeners, state: PollState::Pending };
        },
        Verdict::Success => match snapshot.payload {
            Some(bytes) => Ok(bytes),
            None => Err(FetchError::PayloadCastFailed),
        },
        Verdict::Failure => Err(FetchError::NonSuccessStatus),
    };
    let reported: Result<Vec<u8>, FetchError> = copy_outcome(&outcome);
    handle.state = State::Resolved(outcome);
    Evaluation { install_listeners, state: PollState::Ready(reported) }
}

/// The handle after it was evaluated on each snapshot of `trace` in turn.
pub open spec fn state_after(handle: HandleView, trace: Seq<SnapshotView>) -> HandleView
    decreases trace.len(),
{
    if trace.len() == 0 {
        handle
    } else {
        poll_spec(state_after(handle, trace.drop_last()), trace.last()).0
    }
}

/// What the evaluation on `trace[i]` reports, after the evaluations on the
/// snapshots before it.
pub open spec fn evaluation_at(handle: HandleView, trace: Seq<SnapshotView>, i: int) -> EvaluationView {
    poll_spec(state_after(handle, trace.take(i)), trace[i]).1
}

} // verus!
