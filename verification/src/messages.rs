//! The event-feed envelope: the message union carried on the broker topic
//! and its structural decoder.
//!
//! The envelope has no discriminator field; a payload is decoded by trying
//! the variants in a fixed priority order — progress update, then
//! worker-state update, then data document — and taking the first whose
//! required fields match. The variants are disjoint in practice: a progress
//! update requires a `statuses` map the others lack, a worker-state update
//! a `state` name, a data document a `name`/`doc` tag pair.

pub mod data_model;

use vstd::prelude::*;

use crate::entities::TaskId;
use crate::json::{
    JsonNum, JsonValue, SpecJson, SpecJsonNum, json_entries_view, json_view,
    lemma_json_entries_view, spec_lookup, spec_req_str, spec_opt_str, spec_req_bool,
    spec_opt_num, spec_bool_or_false, spec_opt_i32, spec_req_val, get_req_str, get_opt_str,
    get_req_bool, get_opt_num, get_bool_or_false, get_opt_i32, get_req_val,
    spec_str_arr_or_empty, get_str_arr_or_empty, obj_lookup, str_eq,
};
use crate::messages::data_model::{
    EventDocument, SpecEventDocument, spec_decode_document, decode_document,
};

verus! {

/// Coarse execution mode reported on the event feed. Mirrors the state
/// carried by the request/response interface; the feed only reports it.
#[derive(Debug, Clone, Copy, PartialEq, Eq, Structural)]
pub enum WorkerState {
    Idle,
    Running,
    Pausing,
    Paused,
    Halting,
    Stopping,
    Aborting,
    Suspending,
    Panicked,
    Unknown,
}

/// The feed worker state a wire name denotes, if any.
pub open spec fn spec_feed_state(s: Seq<char>) -> Option<WorkerState> {
    if s == "IDLE"@ {
        Some(WorkerState::Idle)
    } else if s == "RUNNING"@ {
        Some(WorkerState::Running)
    } else if s == "PAUSING"@ {
        Some(WorkerState::Pausing)
    } else if s == "PAUSED"@ {
        Some(WorkerState::Paused)
    } else if s == "HALTING"@ {
        Some(WorkerState::Halting)
    } else if s == "STOPPING"@ {
        Some(WorkerState::Stopping)
    } else if s == "ABORTING"@ {
        Some(WorkerState::Aborting)
    } else if s == "SUSPENDING"@ {
        Some(WorkerState::Suspending)
    } else if s == "PANICKED"@ {
        Some(WorkerState::Panicked)
    } else if s == "UNKNOWN"@ {
        Some(WorkerState::Unknown)
    } else {
        None
    }
}

/// Reads a feed worker state, as [`spec_feed_state`] describes.
pub fn parse_feed_state(s: &str) -> (r: Option<WorkerState>)
    ensures
        r == spec_feed_state(s@),
{
    if str_eq(s, "IDLE") {
        Some(WorkerState::Idle)
    } else if str_eq(s, "RUNNING") {
        Some(WorkerState::Running)
    } else if str_eq(s, "PAUSING") {
        Some(WorkerState::Pausing)
    } else if str_eq(s, "PAUSED") {
        Some(WorkerState::Paused)
    } else if str_eq(s, "HALTING") {
        Some(WorkerState::Halting)
    } else if str_eq(s, "STOPPING") {
        Some(WorkerState::Stopping)
    } else if str_eq(s, "ABORTING") {
        Some(WorkerState::Aborting)
    } else if str_eq(s, "SUSPENDING") {
        Some(WorkerState::Suspending)
    } else if str_eq(s, "PANICKED") {
        Some(WorkerState::Panicked)
    } else if str_eq(s, "UNKNOWN") {
        Some(WorkerState::Unknown)
    } else {
        None
    }
}

/// Live progress of one named axis: where it is, where it is going, and
/// how far along it is.
#[derive(Debug, PartialEq, Eq)]
pub struct StatusView {
    pub display_name: String,
    pub current: Option<JsonNum>,
    pub initial: Option<JsonNum>,
    pub target: Option<JsonNum>,
    pub unit: Option<String>,
    pub precision: Option<i32>,
    pub done: bool,
    pub percentage: Option<JsonNum>,
    pub time_elapsed: Option<JsonNum>,
    pub time_remaining: Option<JsonNum>,
}

/// Mathematical model of a [`StatusView`].
pub struct SpecStatusView {
    pub display_name: Seq<char>,
    pub current: Option<SpecJsonNum>,
    pub initial: Option<SpecJsonNum>,
    pub target: Option<SpecJsonNum>,
    pub unit: Option<Seq<char>>,
    pub precision: Option<i32>,
    pub done: bool,
    pub percentage: Option<SpecJsonNum>,
    pub time_elapsed: Option<SpecJsonNum>,
    pub time_remaining: Option<SpecJsonNum>,
}

impl View for StatusView {
    type V = SpecStatusView;

    open spec fn view(&self) -> SpecStatusView {
        SpecStatusView {
            display_name: self.display_name@,
            current: self.current.deep_view(),
            initial: self.initial.deep_view(),
            target: self.target.deep_view(),
            unit: self.unit.deep_view(),
            precision: self.precision,
            done: self.done,
            percentage: self.percentage.deep_view(),
            time_elapsed: self.time_elapsed.deep_view(),
            time_remaining: self.time_remaining.deep_view(),
        }
    }
}

impl DeepView for StatusView {
    type V = SpecStatusView;

    open spec fn deep_view(&self) -> SpecStatusView {
        self.view()
    }
}

/// The status view a wire value denotes, if any.
pub open spec fn spec_decode_status_view(v: SpecJson) -> Option<SpecStatusView> {
    match v {
        SpecJson::Obj(obj) => if spec_req_str(obj, "display_name"@) is Some && spec_opt_num(
            obj,
            "current"@,
        ) is Some && spec_opt_num(obj, "initial"@) is Some && spec_opt_num(obj, "target"@) is Some
            && spec_opt_str(obj, "unit"@) is Some && spec_opt_i32(obj, "precision"@) is Some
            && spec_bool_or_false(obj, "done"@) is Some && spec_opt_num(obj, "percentage"@) is Some
            && spec_opt_num(obj, "time_elapsed"@) is Some && spec_opt_num(
            obj,
            "time_remaining"@,
        ) is Some {
            Some(
                SpecStatusView {
                    display_name: spec_req_str(obj, "display_name"@)->Some_0,
                    current: spec_opt_num(obj, "current"@)->Some_0,
                    initial: spec_opt_num(obj, "initial"@)->Some_0,
                    target: spec_opt_num(obj, "target"@)->Some_0,
                    unit: spec_opt_str(obj, "unit"@)->Some_0,
                    precision: spec_opt_i32(obj, "precision"@)->Some_0,
                    done: spec_bool_or_false(obj, "done"@)->Some_0,
                    percentage: spec_opt_num(obj, "percentage"@)->Some_0,
                    time_elapsed: spec_opt_num(obj, "time_elapsed"@)->Some_0,
                    time_remaining: spec_opt_num(obj, "time_remaining"@)->Some_0,
                },
            )
        } else {
            None
        },
        _ => None,
    }
}

/// Reads a status view, as [`spec_decode_status_view`] describes.
pub fn decode_status_view(v: &JsonValue) -> (r: Option<StatusView>)
    ensures
        match r {
            Some(sv) => spec_decode_status_view(v@) == Some(sv@),
            None => spec_decode_status_view(v@) is None,
        },
{
    match v {
        JsonValue::Obj(fields) => {
            let display_name = match get_req_str(fields, "display_name") {
                Some(s) => s,
                None => {
                    return None;
                },
            };
            let current = match get_opt_num(fields, "current") {
                Some(c) => c,
                None => {
                    return None;
                },
            };
            let initial = match get_opt_num(fields, "initial") {
                Some(c) => c,
                None => {
                    return None;
                },
            };
            let target = match get_opt_num(fields, "target") {
                Some(c) => c,
                None => {
                    return None;
                },
            };
            let unit = match get_opt_str(fields, "unit") {
                Some(u) => u,
                None => {
                    return None;
                },
            };
            let precision = match get_opt_i32(fields, "precision") {
                Some(p) => p,
                None => {
                    return None;
                },
            };
            let done = match get_bool_or_false(fields, "done") {
                Some(d) => d,
                None => {
                    return None;
                },
            };
            let percentage = match get_opt_num(fields, "percentage") {
                Some(c) => c,
                None => {
                    return None;
                },
            };
            let time_elapsed = match get_opt_num(fields, "time_elapsed") {
                Some(c) => c,
                None => {
                    return None;
                },
            };
            let time_remaining = match get_opt_num(fields, "time_remaining") {
                Some(c) => c,
                None => {
                    return None;
                },
            };
            Some(
                StatusView {
                    display_name,
                    current,
                    initial,
                    target,
                    unit,
                    precision,
                    done,
                    percentage,
                    time_elapsed,
                    time_remaining,
                },
            )
        },
        _ => None,
    }
}

/// Whether every field of `fields` denotes a status view.
pub open spec fn spec_all_values_status_views(fields: Seq<(Seq<char>, SpecJson)>) -> bool {
    forall|i: int|
        0 <= i < fields.len() ==> spec_decode_status_view(#[trigger] fields[i].1) is Some
}

/// The named status views of a field list of status views.
pub open spec fn spec_status_view_entries(fields: Seq<(Seq<char>, SpecJson)>) -> Seq<
    (Seq<char>, SpecStatusView),
> {
    fields.map_values(|p: (Seq<char>, SpecJson)| (p.0, spec_decode_status_view(p.1)->Some_0))
}

/// Reads named status views; fails where a value does not denote one.
pub fn decode_status_view_entries(fields: &Vec<(String, JsonValue)>) -> (r: Option<
    Vec<(String, StatusView)>,
>)
    ensures
        match r {
            Some(out) => spec_all_values_status_views(json_entries_view(fields@))
                && out.deep_view() == spec_status_view_entries(json_entries_view(fields@)),
            None => !spec_all_values_status_views(json_entries_view(fields@)),
        },
{
    proof {
        lemma_json_entries_view(fields@);
    }
    let mut out: Vec<(String, StatusView)> = Vec::new();
    let mut i: usize = 0;
    while i < fields.len()
        invariant
            i <= fields@.len(),
            out@.len() == i,
            forall|j: int|
                0 <= j < i ==> spec_decode_status_view(json_view(#[trigger] fields@[j].1)) is Some,
            forall|j: int| 0 <= j < i ==> (#[trigger] out@[j]).0@ == fields@[j].0@,
            forall|j: int|
                0 <= j < i ==> (#[trigger] out@[j]).1@ == spec_decode_status_view(
                    json_view(fields@[j].1),
                )->Some_0,
        decreases fields@.len() - i,
    {
        let pair = &fields[i];
        match decode_status_view(&pair.1) {
            Some(sv) => {
                let ghost sv_model = sv@;
                out.push((pair.0.clone(), sv));
                proof {
                    assert(out@[i as int].0@ == fields@[i as int].0@);
                    assert(out@[i as int].1@ == sv_model);
                    assert(spec_decode_status_view(json_view(fields@[i as int].1)) == Some(
                        sv_model,
                    ));
                }
            },
            None => {
                proof {
                    lemma_json_entries_view(fields@);
                    assert(!spec_all_values_status_views(json_entries_view(fields@))) by {
                        assert(json_entries_view(fields@)[i as int].1 == json_view(
                            fields@[i as int].1,
                        ));
                    }
                }
                return None;
            },
        }
        i = i + 1;
    }
    proof {
        lemma_json_entries_view(fields@);
        let m = json_entries_view(fields@);
        assert forall|j: int| 0 <= j < m.len() implies spec_decode_status_view(
            #[trigger] m[j].1,
        ) is Some by {
            assert(m[j].1 == json_view(fields@[j].1));
        }
        assert(out.deep_view() =~= spec_status_view_entries(m)) by {
            assert forall|j: int|
                0 <= j < m.len() implies out.deep_view()[j] == spec_status_view_entries(m)[j] by {
                assert(m[j] == (fields@[j].0@, json_view(fields@[j].1)));
            }
        }
    }
    Some(out)
}

/// Per-axis progress of one task.
#[derive(Debug, PartialEq, Eq)]
pub struct ProgressEvent {
    pub task_id: TaskId,
    pub statuses: Vec<(String, StatusView)>,
}

/// Mathematical model of a [`ProgressEvent`].
pub struct SpecProgressEvent {
    pub task_id: Seq<char>,
    pub statuses: Seq<(Seq<char>, SpecStatusView)>,
}

impl View for ProgressEvent {
    type V = SpecProgressEvent;

    open spec fn view(&self) -> SpecProgressEvent {
        SpecProgressEvent { task_id: self.task_id@, statuses: self.statuses.deep_view() }
    }
}

/// The progress update a wire object denotes, if any: a `task_id` and a
/// `statuses` map.
pub open spec fn spec_decode_progress(v: SpecJson) -> Option<SpecProgressEvent> {
    match v {
        SpecJson::Obj(obj) => if spec_req_str(obj, "task_id"@) is Some && (spec_lookup(
            obj,
            "statuses"@,
        ) matches Some(SpecJson::Obj(sts)) && spec_all_values_status_views(sts)) {
            Some(
                SpecProgressEvent {
                    task_id: spec_req_str(obj, "task_id"@)->Some_0,
                    statuses: spec_status_view_entries(
                        spec_lookup(obj, "statuses"@)->Some_0->Obj_0,
                    ),
                },
            )
        } else {
            None
        },
        _ => None,
    }
}

/// Reads a progress update, as [`spec_decode_progress`] describes.
pub fn decode_progress(v: &JsonValue) -> (r: Option<ProgressEvent>)
    ensures
        match r {
            Some(pe) => spec_decode_progress(v@) == Some(pe@),
            None => spec_decode_progress(v@) is None,
        },
{
    match v {
        JsonValue::Obj(fields) => {
            let task_id = match get_req_str(fields, "task_id") {
                Some(s) => TaskId(s),
                None => {
                    return None;
                },
            };
            let st_fields = match obj_lookup(fields, "statuses") {
                Some(JsonValue::Obj(sts)) => sts,
                _ => {
                    return None;
                },
            };
            let statuses = match decode_status_view_entries(st_fields) {
                Some(s) => s,
                None => {
                    return None;
                },
            };
            Some(ProgressEvent { task_id, statuses })
        },
        _ => None,
    }
}

/// Whether one task has finished, and how. The only place completion is
/// signalled explicitly.
#[derive(Debug, PartialEq, Eq)]
pub struct TaskStatus {
    pub task_id: TaskId,
    pub task_complete: bool,
    pub task_failed: bool,
}

/// Mathematical model of a [`TaskStatus`].
pub struct SpecTaskStatus {
    pub task_id: Seq<char>,
    pub task_complete: bool,
    pub task_failed: bool,
}

impl View for TaskStatus {
    type V = SpecTaskStatus;

    open spec fn view(&self) -> SpecTaskStatus {
        SpecTaskStatus {
            task_id: self.task_id@,
            task_complete: self.task_complete,
            task_failed: self.task_failed,
        }
    }
}

impl DeepView for TaskStatus {
    type V = SpecTaskStatus;

    open spec fn deep_view(&self) -> SpecTaskStatus {
        self.view()
    }
}

/// The task status a wire value denotes, if any.
pub open spec fn spec_decode_task_status(v: SpecJson) -> Option<SpecTaskStatus> {
    match v {
        SpecJson::Obj(obj) => if spec_req_str(obj, "task_id"@) is Some && spec_req_bool(
            obj,
            "task_complete"@,
        ) is Some && spec_req_bool(obj, "task_failed"@) is Some {
            Some(
                SpecTaskStatus {
                    task_id: spec_req_str(obj, "task_id"@)->Some_0,
                    task_complete: spec_req_bool(obj, "task_complete"@)->Some_0,
                    task_failed: spec_req_bool(obj, "task_failed"@)->Some_0,
                },
            )
        } else {
            None
        },
        _ => None,
    }
}

/// Reads a task status, as [`spec_decode_task_status`] describes.
pub fn decode_task_status(v: &JsonValue) -> (r: Option<TaskStatus>)
    ensures
        match r {
            Some(ts) => spec_decode_task_status(v@) == Some(ts@),
            None => spec_decode_task_status(v@) is None,
        },
{
    match v {
        JsonValue::Obj(fields) => {
            let task_id = match get_req_str(fields, "task_id") {
                Some(s) => TaskId(s),
                None => {
                    return None;
                },
            };
            let task_complete = match get_req_bool(fields, "task_complete") {
                Some(b) => b,
                None => {
                    return None;
                },
            };
            let task_failed = match get_req_bool(fields, "task_failed") {
                Some(b) => b,
                None => {
                    return None;
                },
            };
            Some(TaskStatus { task_id, task_complete, task_failed })
        },
        _ => None,
    }
}

/// A worker-state update: the worker's mode, the tracked task's status
/// where one is running, and any reported errors and warnings.
#[derive(Debug, PartialEq, Eq)]
pub struct WorkerEvent {
    pub state: WorkerState,
    pub task_status: Option<TaskStatus>,
    pub errors: Vec<String>,
    pub warnings: Vec<String>,
}

/// Mathematical model of a [`WorkerEvent`].
pub struct SpecWorkerEvent {
    pub state: WorkerState,
    pub task_status: Option<SpecTaskStatus>,
    pub errors: Seq<Seq<char>>,
    pub warnings: Seq<Seq<char>>,
}

impl View for WorkerEvent {
    type V = SpecWorkerEvent;

    open spec fn view(&self) -> SpecWorkerEvent {
        SpecWorkerEvent {
            state: self.state,
            task_status: self.task_status.deep_view(),
            errors: self.errors.deep_view(),
            warnings: self.warnings.deep_view(),
        }
    }
}

/// Whether a worker-state update reports the tracked task complete.
pub open spec fn spec_worker_complete(we: SpecWorkerEvent) -> bool {
    match we.task_status {
        Some(ts) => ts.task_complete,
        None => false,
    }
}

impl WorkerEvent {
    /// Whether this update reports the tracked task complete, as
    /// [`spec_worker_complete`] describes.
    pub fn complete(&self) -> (r: bool)
        ensures
            r == spec_worker_complete(self@),
    {
        match &self.task_status {
            Some(ts) => ts.task_complete,
            None => false,
        }
    }
}

/// The worker-state update a wire object denotes, if any: a `state` name,
/// an optional task status, and defaulted error and warning lists.
pub open spec fn spec_decode_worker_event(v: SpecJson) -> Option<SpecWorkerEvent> {
    match v {
        SpecJson::Obj(obj) => if (spec_req_str(obj, "state"@) matches Some(sn) && spec_feed_state(
            sn,
        ) is Some) && (match spec_lookup(obj, "task_status"@) {
            None => true,
            Some(SpecJson::Null) => true,
            Some(w) => spec_decode_task_status(w) is Some,
        }) && spec_str_arr_or_empty(obj, "errors"@) is Some && spec_str_arr_or_empty(
            obj,
            "warnings"@,
        ) is Some {
            Some(
                SpecWorkerEvent {
                    state: spec_feed_state(spec_req_str(obj, "state"@)->Some_0)->Some_0,
                    task_status: match spec_lookup(obj, "task_status"@) {
                        None => None,
                        Some(SpecJson::Null) => None,
                        Some(w) => Some(spec_decode_task_status(w)->Some_0),
                    },
                    errors: spec_str_arr_or_empty(obj, "errors"@)->Some_0,
                    warnings: spec_str_arr_or_empty(obj, "warnings"@)->Some_0,
                },
            )
        } else {
            None
        },
        _ => None,
    }
}

/// Reads a worker-state update, as [`spec_decode_worker_event`] describes.
pub fn decode_worker_event(v: &JsonValue) -> (r: Option<WorkerEvent>)
    ensures
        match r {
            Some(we) => spec_decode_worker_event(v@) == Some(we@),
            None => spec_decode_worker_event(v@) is None,
        },
{
    match v {
        JsonValue::Obj(fields) => {
            let sn = match get_req_str(fields, "state") {
                Some(s) => s,
                None => {
                    return None;
                },
            };
            let state = match parse_feed_state(sn.as_str()) {
                Some(ws) => ws,
                None => {
                    return None;
                },
            };
            let task_status = match obj_lookup(fields, "task_status") {
                None => None,
                Some(w) => match w {
                    JsonValue::Null => None,
                    _ => match decode_task_status(w) {
                        Some(ts) => Some(ts),
                        None => {
                            return None;
                        },
                    },
                },
            };
            let errors = match get_str_arr_or_empty(fields, "errors") {
                Some(e) => e,
                None => {
                    return None;
                },
            };
            let warnings = match get_str_arr_or_empty(fields, "warnings") {
                Some(w) => w,
                None => {
                    return None;
                },
            };
            Some(WorkerEvent { state, task_status, errors, warnings })
        },
        _ => None,
    }
}

/// One message of the event feed.
#[derive(Debug, PartialEq, Eq)]
pub enum Message {
    Progress(ProgressEvent),
    Worker(WorkerEvent),
    Data { task_id: TaskId, event: EventDocument },
}

/// Mathematical model of a [`Message`].
pub enum SpecMessage {
    Progress(SpecProgressEvent),
    Worker(SpecWorkerEvent),
    Data { task_id: Seq<char>, event: SpecEventDocument },
}

impl View for Message {
    type V = SpecMessage;

    open spec fn view(&self) -> SpecMessage {
        match self {
            Message::Progress(pe) => SpecMessage::Progress(pe@),
            Message::Worker(we) => SpecMessage::Worker(we@),
            Message::Data { task_id, event } => SpecMessage::Data {
                task_id: task_id@,
                event: event@,
            },
        }
    }
}

impl DeepView for Message {
    type V = SpecMessage;

    open spec fn deep_view(&self) -> SpecMessage {
        self.view()
    }
}

/// The data message a wire object denotes, if any: a `task_id` and a
/// tagged document under `name` and `doc`.
pub open spec fn spec_decode_data_message(v: SpecJson) -> Option<SpecMessage> {
    match v {
        SpecJson::Obj(obj) => if spec_req_str(obj, "task_id"@) is Some && (spec_req_str(
            obj,
            "name"@,
        ) matches Some(tag) && spec_req_val(obj, "doc"@) matches Some(doc) && spec_decode_document(
            tag,
            doc,
        ) is Some) {
            Some(
                SpecMessage::Data {
                    task_id: spec_req_str(obj, "task_id"@)->Some_0,
                    event: spec_decode_document(
                        spec_req_str(obj, "name"@)->Some_0,
                        spec_req_val(obj, "doc"@)->Some_0,
                    )->Some_0,
                },
            )
        } else {
            None
        },
        _ => None,
    }
}

/// The message a wire value denotes, if any: the first of progress update,
/// worker-state update, data document whose shape matches.
pub open spec fn spec_decode_message(v: SpecJson) -> Option<SpecMessage> {
    match spec_decode_progress(v) {
        Some(pe) => Some(SpecMessage::Progress(pe)),
        None => match spec_decode_worker_event(v) {
            Some(we) => Some(SpecMessage::Worker(we)),
            None => spec_decode_data_message(v),
        },
    }
}

/// Reads a feed message, as [`spec_decode_message`] describes.
pub fn decode_message(v: &JsonValue) -> (r: Option<Message>)
    ensures
        match r {
            Some(m) => spec_decode_message(v@) == Some(m@),
            None => spec_decode_message(v@) is None,
        },
{
    if let Some(pe) = decode_progress(v) {
        return Some(Message::Progress(pe));
    }
    if let Some(we) = decode_worker_event(v) {
        return Some(Message::Worker(we));
    }
    match v {
        JsonValue::Obj(fields) => {
            let task_id = match get_req_str(fields, "task_id") {
                Some(s) => TaskId(s),
                None => {
                    return None;
                },
            };
            let tag = match get_req_str(fields, "name") {
                Some(s) => s,
                None => {
                    return None;
                },
            };
            let doc = match get_req_val(fields, "doc") {
                Some(d) => d,
                None => {
                    return None;
                },
            };
            let event = match decode_document(tag.as_str(), &doc) {
                Some(e) => e,
                None => {
                    return None;
                },
            };
            Some(Message::Data { task_id, event })
        },
        _ => None,
    }
}

/// The correlation key a message carries, if any: the task a progress
/// update names, the task of a worker-state update's status where one is
/// reported, or the task a data document belongs to.
pub open spec fn spec_message_task_id(m: SpecMessage) -> Option<Seq<char>> {
    match m {
        SpecMessage::Progress(pe) => Some(pe.task_id),
        SpecMessage::Worker(we) => match we.task_status {
            Some(ts) => Some(ts.task_id),
            None => None,
        },
        SpecMessage::Data { task_id, .. } => Some(task_id),
    }
}

impl Message {
    /// The correlation key this message carries, as
    /// [`spec_message_task_id`] describes.
    pub fn task_id(&self) -> (r: Option<TaskId>)
        ensures
            match r {
                Some(id) => spec_message_task_id(self@) == Some(id@),
                None => spec_message_task_id(self@) is None,
            },
    {
        match self {
            Message::Progress(pe) => Some(pe.task_id.clone()),
            Message::Worker(we) => match &we.task_status {
                Some(ts) => Some(ts.task_id.clone()),
                None => None,
            },
            Message::Data { task_id, .. } => Some(task_id.clone()),
        }
    }
}

} // verus!
