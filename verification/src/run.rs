//! The submit-and-watch orchestrator: one state machine per invocation.
//!
//! A run moves `Created → TaskSubmitted → Subscribed → Activated`, then
//! drains correlated feed messages until the first terminal worker event,
//! ending in `Terminal(Success)` or `Terminal(Failed)`; a failed request
//! ends it in `RequestError` instead. The subscription is opened before
//! activation — the worker may emit events the moment it is activated, and
//! a late subscription would silently lose them — and the machine's phases
//! make that ordering a precondition, not a convention.
//!
//! The machine only decides; performing the requests and draining the
//! broker queue belong to its caller.

use vstd::prelude::*;

use crate::entities::{TaskId, TaskReference};
use crate::feed::{spec_correlated, message_matches};
use crate::messages::data_model::{EventDocument, ExitStatus, SpecEventDocument};
use crate::messages::{Message, SpecMessage, spec_worker_complete};

verus! {

/// How a finished run went: failed as soon as the terminal worker event
/// reports failure, or a stop document reported a non-success exit.
#[derive(Debug, Clone, Copy, PartialEq, Eq, Structural)]
pub enum RunOutcome {
    Success,
    Failed,
}

/// Where a run stands. `Activated` is the draining phase: correlated
/// messages are consumed until the terminal one.
#[derive(Debug, Clone, Copy, PartialEq, Eq, Structural)]
pub enum RunPhase {
    Created,
    TaskSubmitted,
    Subscribed,
    Activated,
    Terminal(RunOutcome),
    RequestError,
}

/// What the caller should do with one drained message.
#[derive(Debug, Clone, Copy, PartialEq, Eq, Structural)]
pub enum DrainAction {
    /// The message belongs to another task; show nothing, keep draining.
    Skip,
    /// The message belongs to the tracked task; show it, keep draining.
    Surface,
    /// The tracked task reached its terminal event; stop draining.
    Finish(RunOutcome),
}

/// One submit-and-watch run.
#[derive(Debug, PartialEq, Eq)]
pub struct RunSession {
    pub phase: RunPhase,
    pub task_id: Option<TaskId>,
    pub subscribed: bool,
    pub saw_data_failure: bool,
    pub errors: Vec<String>,
    pub warnings: Vec<String>,
}

/// Mathematical model of a [`RunSession`].
pub struct SpecRunSession {
    pub phase: RunPhase,
    pub task_id: Option<Seq<char>>,
    pub subscribed: bool,
    pub saw_data_failure: bool,
    pub errors: Seq<Seq<char>>,
    pub warnings: Seq<Seq<char>>,
}

impl View for RunSession {
    type V = SpecRunSession;

    open spec fn view(&self) -> SpecRunSession {
        SpecRunSession {
            phase: self.phase,
            task_id: self.task_id.deep_view(),
            subscribed: self.subscribed,
            saw_data_failure: self.saw_data_failure,
            errors: self.errors.deep_view(),
            warnings: self.warnings.deep_view(),
        }
    }
}

/// A fresh run: nothing submitted, nothing subscribed, nothing failed.
pub open spec fn spec_new_session() -> SpecRunSession {
    SpecRunSession {
        phase: RunPhase::Created,
        task_id: None,
        subscribed: false,
        saw_data_failure: false,
        errors: Seq::empty(),
        warnings: Seq::empty(),
    }
}

/// The answer to task creation: the task's identifier on success, or no
/// reference at all — a transport failure, a non-success status or an
/// unreadable body — which ends the run as a request error, with no retry.
pub open spec fn spec_task_created(s: SpecRunSession, resp: Option<Seq<char>>) -> SpecRunSession
    recommends
        s.phase == RunPhase::Created,
{
    match resp {
        Some(id) => SpecRunSession { phase: RunPhase::TaskSubmitted, task_id: Some(id), ..s },
        None => SpecRunSession { phase: RunPhase::RequestError, ..s },
    }
}

/// The feed subscription stands; activation may now be sent.
pub open spec fn spec_subscription_opened(s: SpecRunSession) -> SpecRunSession
    recommends
        s.phase == RunPhase::TaskSubmitted,
{
    SpecRunSession { phase: RunPhase::Subscribed, subscribed: true, ..s }
}

/// The answer to activation: draining starts on success; a failure ends
/// the run as a request error and the subscription is abandoned.
pub open spec fn spec_activation(s: SpecRunSession, ok: bool) -> SpecRunSession
    recommends
        s.phase == RunPhase::Subscribed,
{
    if ok {
        SpecRunSession { phase: RunPhase::Activated, ..s }
    } else {
        SpecRunSession { phase: RunPhase::RequestError, ..s }
    }
}

/// One drained message. An uncorrelated message changes nothing and is
/// skipped. A correlated worker event adds its errors and warnings to the
/// run's record; if it reports completion it ends the run, `Failed` when
/// the event reports `task_failed` or an earlier stop document reported a
/// non-success exit, `Success` otherwise. A correlated stop document with
/// a non-success exit marks the run as failed at the data level.
pub open spec fn spec_on_message(s: SpecRunSession, m: SpecMessage) -> (SpecRunSession,
    DrainAction)
    recommends
        s.phase == RunPhase::Activated,
        s.task_id is Some,
{
    if !spec_correlated(m, s.task_id->0) {
        (s, DrainAction::Skip)
    } else {
        match m {
            SpecMessage::Progress(_) => (s, DrainAction::Surface),
            SpecMessage::Worker(we) => {
                let s2 = SpecRunSession {
                    errors: s.errors + we.errors,
                    warnings: s.warnings + we.warnings,
                    ..s
                };
                if spec_worker_complete(we) {
                    let failed = (match we.task_status {
                        Some(ts) => ts.task_failed,
                        None => false,
                    }) || s.saw_data_failure;
                    let outcome = if failed {
                        RunOutcome::Failed
                    } else {
                        RunOutcome::Success
                    };
                    (
                        SpecRunSession { phase: RunPhase::Terminal(outcome), ..s2 },
                        DrainAction::Finish(outcome),
                    )
                } else {
                    (s2, DrainAction::Surface)
                }
            },
            SpecMessage::Data { event, .. } => {
                if event matches SpecEventDocument::Stop(st) && st.exit_status
                    != ExitStatus::Success {
                    (SpecRunSession { saw_data_failure: true, ..s }, DrainAction::Surface)
                } else {
                    (s, DrainAction::Surface)
                }
            },
        }
    }
}

impl RunSession {
    /// Starts a fresh run, as [`spec_new_session`] describes.
    pub fn new() -> (s: RunSession)
        ensures
            s@ == spec_new_session(),
    {
        let s = RunSession {
            phase: RunPhase::Created,
            task_id: None,
            subscribed: false,
            saw_data_failure: false,
            errors: Vec::new(),
            warnings: Vec::new(),
        };
        proof {
            assert(s@.errors =~= Seq::<Seq<char>>::empty());
            assert(s@.warnings =~= Seq::<Seq<char>>::empty());
        }
        s
    }

    /// Records the answer to task creation, as [`spec_task_created`]
    /// describes.
    pub fn task_created(&mut self, resp: Option<TaskReference>)
        requires
            old(self)@.phase == RunPhase::Created,
        ensures
            final(self)@ == spec_task_created(
                old(self)@,
                match resp {
                    Some(t) => Some(t@.task_id),
                    None => None,
                },
            ),
    {
        match resp {
            Some(t) => {
                self.task_id = Some(t.task_id);
                self.phase = RunPhase::TaskSubmitted;
            },
            None => {
                self.phase = RunPhase::RequestError;
            },
        }
    }

    /// Records that the feed subscription stands, as
    /// [`spec_subscription_opened`] describes.
    pub fn subscription_opened(&mut self)
        requires
            old(self)@.phase == RunPhase::TaskSubmitted,
        ensures
            final(self)@ == spec_subscription_opened(old(self)@),
    {
        self.subscribed = true;
        self.phase = RunPhase::Subscribed;
    }

    /// Records the answer to activation, as [`spec_activation`] describes.
    pub fn activation_result(&mut self, ok: bool)
        requires
            old(self)@.phase == RunPhase::Subscribed,
        ensures
            final(self)@ == spec_activation(old(self)@, ok),
    {
        if ok {
            self.phase = RunPhase::Activated;
        } else {
            self.phase = RunPhase::RequestError;
        }
    }

    /// Drains one message, as [`spec_on_message`] describes.
    pub fn on_message(&mut self, msg: Message) -> (act: DrainAction)
        requires
            old(self)@.phase == RunPhase::Activated,
            old(self)@.task_id is Some,
        ensures
            final(self)@ == spec_on_message(old(self)@, msg@).0,
            act == spec_on_message(old(self)@, msg@).1,
    {
        let matched = match &self.task_id {
            Some(target) => message_matches(&msg, target),
            None => false,
        };
        if !matched {
            return DrainAction::Skip;
        }
        match msg {
            Message::Progress(_) => DrainAction::Surface,
            Message::Worker(mut we) => {
                let ghost we0 = we@;
                let complete = we.complete();
                let failed_flag = match &we.task_status {
                    Some(ts) => ts.task_failed,
                    None => false,
                };
                self.errors.append(&mut we.errors);
                self.warnings.append(&mut we.warnings);
                proof {
                    assert(self.errors.deep_view() =~= old(self)@.errors + we0.errors);
                    assert(self.warnings.deep_view() =~= old(self)@.warnings + we0.warnings);
                }
                if complete {
                    let failed = failed_flag || self.saw_data_failure;
                    let outcome = if failed {
                        RunOutcome::Failed
                    } else {
                        RunOutcome::Success
                    };
                    self.phase = RunPhase::Terminal(outcome);
                    DrainAction::Finish(outcome)
                } else {
                    DrainAction::Surface
                }
            },
            Message::Data { event, .. } => {
                match &event {
                    EventDocument::Stop(st) => {
                        if st.exit_status != ExitStatus::Success {
                            self.saw_data_failure = true;
                        }
                    },
                    _ => (),
                }
                DrainAction::Surface
            },
        }
    }
}

/// The wire form of a task-creation request: the plan's name, its
/// parameters, and the instrument session, and nothing else.
pub open spec fn spec_task_request(
    name: Seq<char>,
    params: crate::json::SpecJson,
    instrument_session: Seq<char>,
) -> crate::json::SpecJson {
    crate::json::SpecJson::Obj(
        seq![
            ("name"@, crate::json::SpecJson::Str(name)),
            ("params"@, params),
            ("instrument_session"@, crate::json::SpecJson::Str(instrument_session)),
        ],
    )
}

/// Renders a task-creation request, as [`spec_task_request`] describes.
pub fn encode_task_request(name: &str, params: crate::json::JsonValue, instrument_session: &str)
    -> (r: crate::json::JsonValue)
    ensures
        r@ == spec_task_request(name@, params@, instrument_session@),
{
    let ghost params_model = params@;
    let mut fields: Vec<(String, crate::json::JsonValue)> = Vec::new();
    fields.push(("name".to_owned(), crate::json::JsonValue::Str(name.to_owned())));
    fields.push(("params".to_owned(), params));
    fields.push((
        "instrument_session".to_owned(),
        crate::json::JsonValue::Str(instrument_session.to_owned()),
    ));
    let r = crate::json::JsonValue::Obj(fields);
    proof {
        crate::json::lemma_json_entries_view(r->Obj_0@);
        assert(crate::json::json_entries_view(r->Obj_0@) =~= spec_task_request(
            name@,
            params_model,
            instrument_session@,
        )->Obj_0);
    }
    r
}

/// The shape every reachable session keeps: once past subscription the
/// subscribed flag stands, and once a task was submitted its identifier is
/// held.
pub open spec fn spec_session_wf(s: SpecRunSession) -> bool {
    &&& (s.phase == RunPhase::Subscribed || s.phase == RunPhase::Activated || s.phase matches RunPhase::Terminal(_)) ==> s.subscribed
    &&& (s.phase == RunPhase::TaskSubmitted || s.phase == RunPhase::Subscribed || s.phase
        == RunPhase::Activated || s.phase matches RunPhase::Terminal(_)) ==> s.task_id is Some
}

/// A fresh session is well-shaped.
pub proof fn lemma_wf_new()
    ensures
        spec_session_wf(spec_new_session()),
{
}

/// Task creation preserves the shape.
pub proof fn lemma_wf_task_created(s: SpecRunSession, resp: Option<Seq<char>>)
    requires
        spec_session_wf(s),
        s.phase == RunPhase::Created,
    ensures
        spec_session_wf(spec_task_created(s, resp)),
{
}

/// Opening the subscription preserves the shape.
pub proof fn lemma_wf_subscription_opened(s: SpecRunSession)
    requires
        spec_session_wf(s),
        s.phase == RunPhase::TaskSubmitted,
    ensures
        spec_session_wf(spec_subscription_opened(s)),
{
}

/// Activation preserves the shape.
pub proof fn lemma_wf_activation(s: SpecRunSession, ok: bool)
    requires
        spec_session_wf(s),
        s.phase == RunPhase::Subscribed,
    ensures
        spec_session_wf(spec_activation(s, ok)),
{
}

/// Draining preserves the shape.
pub proof fn lemma_wf_on_message(s: SpecRunSession, m: SpecMessage)
    requires
        spec_session_wf(s),
        s.phase == RunPhase::Activated,
        s.task_id is Some,
    ensures
        spec_session_wf(spec_on_message(s, m).0),
{
}

/// Subscription comes before activation: in any well-shaped session that
/// is draining or finished, the feed subscription was opened — no event
/// emitted at activation time can have been missed for want of one.
pub proof fn lemma_activated_implies_subscribed(s: SpecRunSession)
    requires
        spec_session_wf(s),
        s.phase == RunPhase::Activated || s.phase matches RunPhase::Terminal(_),
    ensures
        s.subscribed,
{
}

/// An uncorrelated message is skipped and changes nothing.
pub proof fn lemma_uncorrelated_skipped(s: SpecRunSession, m: SpecMessage)
    requires
        s.phase == RunPhase::Activated,
        s.task_id is Some,
        !spec_correlated(m, s.task_id->0),
    ensures
        spec_on_message(s, m) == (s, DrainAction::Skip),
{
}

/// The machine finishes exactly on a correlated terminal message: the
/// drain action is `Finish` precisely where the message carries the
/// tracked task's identifier and reports completion.
pub proof fn lemma_finish_iff_terminal(s: SpecRunSession, m: SpecMessage)
    requires
        s.phase == RunPhase::Activated,
        s.task_id is Some,
    ensures
        (spec_on_message(s, m).1 matches DrainAction::Finish(_)) <==> (spec_correlated(
            m,
            s.task_id->0,
        ) && crate::feed::spec_terminal(m)),
{
}

/// The session after draining `msgs` one by one, stopping — as the caller
/// must — once the phase leaves `Activated`.
pub open spec fn spec_drain(s: SpecRunSession, msgs: Seq<SpecMessage>) -> SpecRunSession
    decreases msgs.len(),
{
    if msgs.len() == 0 || s.phase != RunPhase::Activated {
        s
    } else {
        spec_drain(spec_on_message(s, msgs[0]).0, msgs.skip(1))
    }
}

/// A message that is not a correlated terminal event leaves the machine
/// draining: the phase and the tracked task stay as they were.
pub proof fn lemma_nonterminal_keeps_draining(s: SpecRunSession, m: SpecMessage)
    requires
        s.phase == RunPhase::Activated,
        s.task_id is Some,
        !(spec_correlated(m, s.task_id->0) && crate::feed::spec_terminal(m)),
    ensures
        spec_on_message(s, m).0.phase == RunPhase::Activated,
        spec_on_message(s, m).0.task_id == s.task_id,
{
}

/// Draining a trace whose first correlated terminal message reports
/// completion without failure — while no earlier correlated stop document
/// reported a non-success exit — ends the run in `Success`, wherever in
/// the traffic that terminal message stands.
pub proof fn lemma_drain_success(s: SpecRunSession, msgs: Seq<SpecMessage>, k: int)
    requires
        s.phase == RunPhase::Activated,
        s.task_id is Some,
        !s.saw_data_failure,
        0 <= k < msgs.len(),
        forall|j: int|
            0 <= j < k ==> !(spec_correlated(#[trigger] msgs[j], s.task_id->0)
                && crate::feed::spec_terminal(msgs[j])),
        forall|j: int|
            0 <= j < k ==> !(spec_correlated(#[trigger] msgs[j], s.task_id->0)
                && (msgs[j] matches SpecMessage::Data { event, .. } && event
                matches SpecEventDocument::Stop(st) && st.exit_status != ExitStatus::Success)),
        spec_correlated(msgs[k], s.task_id->0),
        crate::feed::spec_terminal(msgs[k]),
        msgs[k] matches SpecMessage::Worker(we) && (we.task_status matches Some(ts)
            && !ts.task_failed),
    ensures
        spec_drain(s, msgs).phase == RunPhase::Terminal(RunOutcome::Success),
    decreases msgs.len(),
{
    if k == 0 {
        let (s2, act) = spec_on_message(s, msgs[0]);
        assert(s2.phase == RunPhase::Terminal(RunOutcome::Success));
        assert(spec_drain(s2, msgs.skip(1)) == s2);
    } else {
        let (s2, _) = spec_on_message(s, msgs[0]);
        lemma_nonterminal_keeps_draining(s, msgs[0]);
        assert(!s2.saw_data_failure);
        assert(msgs.skip(1)[k - 1] == msgs[k]);
        assert forall|j: int|
            0 <= j < k - 1 implies !(spec_correlated(#[trigger] msgs.skip(1)[j], s2.task_id->0)
                && crate::feed::spec_terminal(msgs.skip(1)[j])) by {
            assert(msgs.skip(1)[j] == msgs[j + 1]);
        }
        assert forall|j: int|
            0 <= j < k - 1 implies !(spec_correlated(#[trigger] msgs.skip(1)[j], s2.task_id->0)
                && (msgs.skip(1)[j] matches SpecMessage::Data { event, .. } && event
                matches SpecEventDocument::Stop(st) && st.exit_status
                != ExitStatus::Success)) by {
            assert(msgs.skip(1)[j] == msgs[j + 1]);
        }
        lemma_drain_success(s2, msgs.skip(1), k - 1);
    }
}

/// Draining a trace whose first correlated terminal message reports
/// `task_failed` ends the run in `Failed`, whatever else the traffic held.
pub proof fn lemma_drain_failure(s: SpecRunSession, msgs: Seq<SpecMessage>, k: int)
    requires
        s.phase == RunPhase::Activated,
        s.task_id is Some,
        0 <= k < msgs.len(),
        forall|j: int|
            0 <= j < k ==> !(spec_correlated(#[trigger] msgs[j], s.task_id->0)
                && crate::feed::spec_terminal(msgs[j])),
        spec_correlated(msgs[k], s.task_id->0),
        crate::feed::spec_terminal(msgs[k]),
        msgs[k] matches SpecMessage::Worker(we) && (we.task_status matches Some(ts)
            && ts.task_failed),
    ensures
        spec_drain(s, msgs).phase == RunPhase::Terminal(RunOutcome::Failed),
    decreases msgs.len(),
{
    if k == 0 {
        let (s2, _) = spec_on_message(s, msgs[0]);
        assert(s2.phase == RunPhase::Terminal(RunOutcome::Failed));
        assert(spec_drain(s2, msgs.skip(1)) == s2);
    } else {
        let (s2, _) = spec_on_message(s, msgs[0]);
        lemma_nonterminal_keeps_draining(s, msgs[0]);
        assert(msgs.skip(1)[k - 1] == msgs[k]);
        assert forall|j: int|
            0 <= j < k - 1 implies !(spec_correlated(#[trigger] msgs.skip(1)[j], s2.task_id->0)
                && crate::feed::spec_terminal(msgs.skip(1)[j])) by {
            assert(msgs.skip(1)[j] == msgs[j + 1]);
        }
        lemma_drain_failure(s2, msgs.skip(1), k - 1);
    }
}

/// For all valid submissions: creating a task, subscribing, activating,
/// and then draining a terminal worker event for that task that reports
/// completion without failure ends the run in the `Success` outcome.
pub proof fn lemma_run_success(
    id: Seq<char>,
    we: crate::messages::SpecWorkerEvent,
    ts: crate::messages::SpecTaskStatus,
)
    requires
        we.task_status == Some(ts),
        ts.task_id == id,
        ts.task_complete,
        !ts.task_failed,
    ensures
        ({
            let s3 = spec_activation(
                spec_subscription_opened(spec_task_created(spec_new_session(), Some(id))),
                true,
            );
            spec_on_message(s3, SpecMessage::Worker(we)) == (
                SpecRunSession { phase: RunPhase::Terminal(RunOutcome::Success), errors: we.errors, warnings: we.warnings, ..s3 },
                DrainAction::Finish(RunOutcome::Success),
            )
        }),
{
    let s3 = spec_activation(
        spec_subscription_opened(spec_task_created(spec_new_session(), Some(id))),
        true,
    );
    assert(s3.errors + we.errors =~= we.errors);
    assert(s3.warnings + we.warnings =~= we.warnings);
}

/// A terminal worker event reporting `task_failed` ends the run in the
/// `Failed` outcome, and the errors and warnings of that event are part of
/// the finished session's record.
pub proof fn lemma_run_failure(
    id: Seq<char>,
    we: crate::messages::SpecWorkerEvent,
    ts: crate::messages::SpecTaskStatus,
)
    requires
        we.task_status == Some(ts),
        ts.task_id == id,
        ts.task_complete,
        ts.task_failed,
    ensures
        ({
            let s3 = spec_activation(
                spec_subscription_opened(spec_task_created(spec_new_session(), Some(id))),
                true,
            );
            let (s4, act) = spec_on_message(s3, SpecMessage::Worker(we));
            act == DrainAction::Finish(RunOutcome::Failed) && s4.phase == RunPhase::Terminal(
                RunOutcome::Failed,
            ) && s4.errors == we.errors && s4.warnings == we.warnings
        }),
{
    let s3 = spec_activation(
        spec_subscription_opened(spec_task_created(spec_new_session(), Some(id))),
        true,
    );
    assert(s3.errors + we.errors =~= we.errors);
    assert(s3.warnings + we.warnings =~= we.warnings);
}

} // verus!
