//! Entities exchanged with the worker's request/response interface: task
//! references, worker states, state-change commands, environment reports,
//! and the listing payloads for devices, plans and installed packages.

use vstd::prelude::*;

use crate::json::{
    JsonValue, SpecJson, json_entries_view, json_seq_view, json_view, lemma_json_entries_view,
    spec_lookup, spec_req_str, spec_opt_str, spec_req_bool, spec_opt_bool, get_req_str,
    get_opt_str, get_req_bool, get_opt_bool, obj_lookup, str_eq,
};

verus! {

/// Identifier the worker assigns to one submitted task: the correlation key
/// for the lifetime of a run. Opaque — compared, never interpreted.
#[derive(Debug, PartialEq, Eq)]
pub struct TaskId(pub String);

impl View for TaskId {
    type V = Seq<char>;

    open spec fn view(&self) -> Seq<char> {
        self.0@
    }
}

impl DeepView for TaskId {
    type V = Seq<char>;

    open spec fn deep_view(&self) -> Seq<char> {
        self.0@
    }
}

impl Clone for TaskId {
    fn clone(&self) -> (res: Self)
        ensures
            res == *self,
    {
        TaskId(self.0.clone())
    }
}

/// Whether two task identifiers name the same task.
pub fn task_id_eq(a: &TaskId, b: &TaskId) -> (r: bool)
    ensures
        r == (a@ == b@),
{
    a.0 == b.0
}

/// The worker's answer to task creation: the identifier it assigned.
#[derive(Debug, PartialEq, Eq)]
pub struct TaskReference {
    pub task_id: TaskId,
}

impl Clone for TaskReference {
    fn clone(&self) -> (res: Self)
        ensures
            res == *self,
    {
        TaskReference { task_id: self.task_id.clone() }
    }
}

/// Mathematical model of a [`TaskReference`].
pub struct SpecTaskReference {
    pub task_id: Seq<char>,
}

impl View for TaskReference {
    type V = SpecTaskReference;

    open spec fn view(&self) -> SpecTaskReference {
        SpecTaskReference { task_id: self.task_id@ }
    }
}

/// Coarse execution mode of the worker. The client only reports what the
/// service reports; it never infers transitions.
#[derive(Debug, Clone, Copy, PartialEq, Eq, Structural)]
pub enum WorkerState {
    Idle,
    Running,
    Pausing,
    Paused,
    Halting,
    Stopping,
    Aborting,
    Suspending,
    Panicked,
    Unknown,
}

/// The wire name of a worker state.
pub open spec fn spec_state_name(ws: WorkerState) -> Seq<char> {
    match ws {
        WorkerState::Idle => "IDLE"@,
        WorkerState::Running => "RUNNING"@,
        WorkerState::Pausing => "PAUSING"@,
        WorkerState::Paused => "PAUSED"@,
        WorkerState::Halting => "HALTING"@,
        WorkerState::Stopping => "STOPPING"@,
        WorkerState::Aborting => "ABORTING"@,
        WorkerState::Suspending => "SUSPENDING"@,
        WorkerState::Panicked => "PANICKED"@,
        WorkerState::Unknown => "UNKNOWN"@,
    }
}

/// The worker state a wire name denotes, if any.
pub open spec fn spec_worker_state(s: Seq<char>) -> Option<WorkerState> {
    if s == "IDLE"@ {
        Some(WorkerState::Idle)
    } else if s == "RUNNING"@ {
        Some(WorkerState::Running)
    } else if s == "PAUSING"@ {
        Some(WorkerState::Pausing)
    } else if s == "PAUSED"@ {
        Some(WorkerState::Paused)
    } else if s == "HALTING"@ {
        Some(WorkerState::Halting)
    } else if s == "STOPPING"@ {
        Some(WorkerState::Stopping)
    } else if s == "ABORTING"@ {
        Some(WorkerState::Aborting)
    } else if s == "SUSPENDING"@ {
        Some(WorkerState::Suspending)
    } else if s == "PANICKED"@ {
        Some(WorkerState::Panicked)
    } else if s == "UNKNOWN"@ {
        Some(WorkerState::Unknown)
    } else {
        None
    }
}

/// Renders a worker state under its wire name.
pub fn state_name(ws: WorkerState) -> (r: String)
    ensures
        r@ == spec_state_name(ws),
{
    match ws {
        WorkerState::Idle => "IDLE".to_owned(),
        WorkerState::Running => "RUNNING".to_owned(),
        WorkerState::Pausing => "PAUSING".to_owned(),
        WorkerState::Paused => "PAUSED".to_owned(),
        WorkerState::Halting => "HALTING".to_owned(),
        WorkerState::Stopping => "STOPPING".to_owned(),
        WorkerState::Aborting => "ABORTING".to_owned(),
        WorkerState::Suspending => "SUSPENDING".to_owned(),
        WorkerState::Panicked => "PANICKED".to_owned(),
        WorkerState::Unknown => "UNKNOWN".to_owned(),
    }
}

/// Reads a worker state from its wire name, as [`spec_worker_state`]
/// describes.
pub fn parse_worker_state(s: &str) -> (r: Option<WorkerState>)
    ensures
        r == spec_worker_state(s@),
{
    if str_eq(s, "IDLE") {
        Some(WorkerState::Idle)
    } else if str_eq(s, "RUNNING") {
        Some(WorkerState::Running)
    } else if str_eq(s, "PAUSING") {
        Some(WorkerState::Pausing)
    } else if str_eq(s, "PAUSED") {
        Some(WorkerState::Paused)
    } else if str_eq(s, "HALTING") {
        Some(WorkerState::Halting)
    } else if str_eq(s, "STOPPING") {
        Some(WorkerState::Stopping)
    } else if str_eq(s, "ABORTING") {
        Some(WorkerState::Aborting)
    } else if str_eq(s, "SUSPENDING") {
        Some(WorkerState::Suspending)
    } else if str_eq(s, "PANICKED") {
        Some(WorkerState::Panicked)
    } else if str_eq(s, "UNKNOWN") {
        Some(WorkerState::Unknown)
    } else {
        None
    }
}

/// The ten wire names of worker states are pairwise distinct.
proof fn lemma_state_names_distinct()
    ensures
        "IDLE"@.len() == 4,
        "PAUSED"@.len() == 6,
        "SUSPENDING"@.len() == 10,
        "RUNNING"@.len() == 7,
        "PAUSING"@.len() == 7,
        "HALTING"@.len() == 7,
        "UNKNOWN"@.len() == 7,
        "STOPPING"@.len() == 8,
        "ABORTING"@.len() == 8,
        "PANICKED"@.len() == 8,
        "RUNNING"@ != "PAUSING"@,
        "RUNNING"@ != "HALTING"@,
        "RUNNING"@ != "UNKNOWN"@,
        "PAUSING"@ != "HALTING"@,
        "PAUSING"@ != "UNKNOWN"@,
        "HALTING"@ != "UNKNOWN"@,
        "STOPPING"@ != "ABORTING"@,
        "STOPPING"@ != "PANICKED"@,
        "ABORTING"@ != "PANICKED"@,
{
    reveal_strlit("IDLE");
    reveal_strlit("RUNNING");
    reveal_strlit("PAUSING");
    reveal_strlit("PAUSED");
    reveal_strlit("HALTING");
    reveal_strlit("STOPPING");
    reveal_strlit("ABORTING");
    reveal_strlit("SUSPENDING");
    reveal_strlit("PANICKED");
    reveal_strlit("UNKNOWN");
    assert("RUNNING"@[0] == 'R');
    assert("PAUSING"@[0] == 'P');
    assert("HALTING"@[0] == 'H');
    assert("UNKNOWN"@[0] == 'U');
    assert("STOPPING"@[0] == 'S');
    assert("ABORTING"@[0] == 'A');
    assert("PANICKED"@[0] == 'P');
    assert("PANICKED"@[1] == 'A');
    assert("PAUSING"@[1] == 'A');
    assert("STOPPING"@[1] == 'T');
}

/// Naming a worker state and reading the name back round-trips.
pub proof fn lemma_worker_state_name(ws: WorkerState)
    ensures
        spec_worker_state(spec_state_name(ws)) == Some(ws),
{
    lemma_state_names_distinct();
    reveal_strlit("IDLE");
    reveal_strlit("RUNNING");
    reveal_strlit("PAUSING");
    reveal_strlit("PAUSED");
    reveal_strlit("HALTING");
    reveal_strlit("STOPPING");
    reveal_strlit("ABORTING");
    reveal_strlit("SUSPENDING");
    reveal_strlit("PANICKED");
    reveal_strlit("UNKNOWN");
    match ws {
        WorkerState::Idle => assert(spec_worker_state(spec_state_name(ws)) == Some(ws)),
        WorkerState::Running => assert(spec_worker_state(spec_state_name(ws)) == Some(ws)),
        WorkerState::Pausing => assert(spec_worker_state(spec_state_name(ws)) == Some(ws)),
        WorkerState::Paused => assert(spec_worker_state(spec_state_name(ws)) == Some(ws)),
        WorkerState::Halting => assert(spec_worker_state(spec_state_name(ws)) == Some(ws)),
        WorkerState::Stopping => assert(spec_worker_state(spec_state_name(ws)) == Some(ws)),
        WorkerState::Aborting => assert(spec_worker_state(spec_state_name(ws)) == Some(ws)),
        WorkerState::Suspending => assert(spec_worker_state(spec_state_name(ws)) == Some(ws)),
        WorkerState::Panicked => assert(spec_worker_state(spec_state_name(ws)) == Some(ws)),
        WorkerState::Unknown => assert(spec_worker_state(spec_state_name(ws)) == Some(ws)),
    }
}

/// The worker state a wire value denotes, if any: a bare JSON string
/// holding the state's wire name.
pub open spec fn spec_decode_worker_state(v: SpecJson) -> Option<WorkerState> {
    match v {
        SpecJson::Str(s) => spec_worker_state(s),
        _ => None,
    }
}

/// Reads a worker state from a wire value, as [`spec_decode_worker_state`]
/// describes.
pub fn decode_worker_state(v: &JsonValue) -> (r: Option<WorkerState>)
    ensures
        r == spec_decode_worker_state(v@),
{
    match v {
        JsonValue::Str(s) => parse_worker_state(s.as_str()),
        _ => None,
    }
}

/// Renders a worker state as the wire value its name travels in.
pub fn encode_worker_state(ws: WorkerState) -> (r: JsonValue)
    ensures
        r@ == SpecJson::Str(spec_state_name(ws)),
{
    JsonValue::Str(state_name(ws))
}

/// A request to move the worker into a target state. `reason` is
/// informational (used when aborting); `defer` is meaningful only when
/// pausing and defers the pause to the next safe checkpoint.
#[derive(Debug, PartialEq, Eq)]
pub struct NewState {
    pub new_state: WorkerState,
    pub reason: Option<String>,
    pub defer: Option<bool>,
}

impl Clone for NewState {
    fn clone(&self) -> (res: Self)
        ensures
            res == *self,
    {
        NewState {
            new_state: self.new_state,
            reason: match &self.reason {
                Some(s) => Some(s.clone()),
                None => None,
            },
            defer: self.defer,
        }
    }
}

/// Mathematical model of a [`NewState`] command.
pub struct SpecNewState {
    pub new_state: WorkerState,
    pub reason: Option<Seq<char>>,
    pub defer: Option<bool>,
}

impl View for NewState {
    type V = SpecNewState;

    open spec fn view(&self) -> SpecNewState {
        SpecNewState {
            new_state: self.new_state,
            reason: match self.reason {
                Some(ref s) => Some(s@),
                None => None,
            },
            defer: self.defer,
        }
    }
}

/// The wire form of a state command: a `new_state` field always, `reason`
/// and `defer` fields only where the command carries them — an absent
/// option is omitted, never written as `null`.
pub open spec fn spec_encode_new_state(m: SpecNewState) -> SpecJson {
    SpecJson::Obj(
        seq![("new_state"@, SpecJson::Str(spec_state_name(m.new_state)))] + (match m.reason {
            Some(re) => seq![("reason"@, SpecJson::Str(re))],
            None => Seq::empty(),
        }) + (match m.defer {
            Some(d) => seq![("defer"@, SpecJson::Bool(d))],
            None => Seq::empty(),
        }),
    )
}

/// The state command a wire value denotes, if any.
pub open spec fn spec_decode_new_state(v: SpecJson) -> Option<SpecNewState> {
    match v {
        SpecJson::Obj(obj) => match (
            spec_req_str(obj, "new_state"@),
            spec_opt_str(obj, "reason"@),
            spec_opt_bool(obj, "defer"@),
        ) {
            (Some(sname), Some(reason), Some(defer)) => match spec_worker_state(sname) {
                Some(ws) => Some(SpecNewState { new_state: ws, reason, defer }),
                None => None,
            },
            _ => None,
        },
        _ => None,
    }
}

/// Renders a state command, as [`spec_encode_new_state`] describes.
pub fn encode_new_state(ns: &NewState) -> (r: JsonValue)
    ensures
        r@ == spec_encode_new_state(ns@),
{
    let mut fields: Vec<(String, JsonValue)> = Vec::new();
    fields.push(("new_state".to_owned(), JsonValue::Str(state_name(ns.new_state))));
    match &ns.reason {
        Some(reason) => fields.push(("reason".to_owned(), JsonValue::Str(reason.clone()))),
        None => (),
    }
    match &ns.defer {
        Some(d) => fields.push(("defer".to_owned(), JsonValue::Bool(*d))),
        None => (),
    }
    let r = JsonValue::Obj(fields);
    proof {
        lemma_json_entries_view(r->Obj_0@);
        assert(json_entries_view(r->Obj_0@) =~= spec_encode_new_state(ns@)->Obj_0);
    }
    r
}

/// Reads a state command, as [`spec_decode_new_state`] describes.
pub fn decode_new_state(v: &JsonValue) -> (r: Option<NewState>)
    ensures
        match r {
            Some(ns) => spec_decode_new_state(v@) == Some(ns@),
            None => spec_decode_new_state(v@) is None,
        },
{
    match v {
        JsonValue::Obj(fields) => {
            let sname = match get_req_str(fields, "new_state") {
                Some(s) => s,
                None => {
                    return None;
                },
            };
            let new_state = match parse_worker_state(sname.as_str()) {
                Some(ws) => ws,
                None => {
                    return None;
                },
            };
            let reason = match get_opt_str(fields, "reason") {
                Some(re) => re,
                None => {
                    return None;
                },
            };
            let defer = match get_opt_bool(fields, "defer") {
                Some(d) => d,
                None => {
                    return None;
                },
            };
            Some(NewState { new_state, reason, defer })
        },
        _ => None,
    }
}

/// Encoding a state command and decoding the result preserves it, and an
/// absent `reason` or `defer` leaves no field behind.
pub proof fn lemma_new_state_round_trip(m: SpecNewState)
    ensures
        spec_decode_new_state(spec_encode_new_state(m)) == Some(m),
        m.reason is None ==> spec_lookup(spec_encode_new_state(m)->Obj_0, "reason"@) is None,
        m.defer is None ==> spec_lookup(spec_encode_new_state(m)->Obj_0, "defer"@) is None,
{
    reveal_strlit("new_state");
    reveal_strlit("reason");
    reveal_strlit("defer");
    assert("new_state"@.len() == 9);
    assert("reason"@.len() == 6);
    assert("defer"@.len() == 5);
    let obj = spec_encode_new_state(m)->Obj_0;
    let ns_entry = ("new_state"@, SpecJson::Str(spec_state_name(m.new_state)));
    let reason_part: Seq<(Seq<char>, SpecJson)> = match m.reason {
        Some(re) => seq![("reason"@, SpecJson::Str(re))],
        None => Seq::empty(),
    };
    let defer_part: Seq<(Seq<char>, SpecJson)> = match m.defer {
        Some(d) => seq![("defer"@, SpecJson::Bool(d))],
        None => Seq::empty(),
    };
    let tail = reason_part + defer_part;
    assert(obj =~= seq![ns_entry] + tail);
    lemma_worker_state_name(m.new_state);
    crate::json::lemma_lookup_cons(ns_entry, tail, "new_state"@);
    crate::json::lemma_lookup_cons(ns_entry, tail, "reason"@);
    crate::json::lemma_lookup_cons(ns_entry, tail, "defer"@);
    let empty_obj = Seq::<(Seq<char>, SpecJson)>::empty();
    match m.reason {
        Some(re) => {
            let re_entry = ("reason"@, SpecJson::Str(re));
            assert(tail =~= seq![re_entry] + defer_part);
            crate::json::lemma_lookup_cons(re_entry, defer_part, "reason"@);
            crate::json::lemma_lookup_cons(re_entry, defer_part, "defer"@);
        },
        None => {
            assert(tail =~= defer_part);
        },
    }
    match m.defer {
        Some(d) => {
            let de_entry = ("defer"@, SpecJson::Bool(d));
            assert(defer_part =~= seq![de_entry] + empty_obj);
            crate::json::lemma_lookup_cons(de_entry, empty_obj, "reason"@);
            crate::json::lemma_lookup_cons(de_entry, empty_obj, "defer"@);
            assert(spec_lookup(empty_obj, "reason"@) is None);
            assert(spec_lookup(empty_obj, "defer"@) is None);
        },
        None => {
            assert(spec_lookup(defer_part, "reason"@) is None);
            assert(spec_lookup(defer_part, "defer"@) is None);
        },
    }
    assert(spec_lookup(obj, "new_state"@) == Some(
        SpecJson::Str(spec_state_name(m.new_state)),
    ));
}

/// One instantiation of the worker's runtime environment. A reload produces
/// a new `environment_id`; `error_message` reports a failed initialization.
#[derive(Debug, PartialEq, Eq)]
pub struct EnvironmentState {
    pub environment_id: String,
    pub initialized: bool,
    pub error_message: Option<String>,
}

impl Clone for EnvironmentState {
    fn clone(&self) -> (res: Self)
        ensures
            res == *self,
    {
        EnvironmentState {
            environment_id: self.environment_id.clone(),
            initialized: self.initialized,
            error_message: match &self.error_message {
                Some(s) => Some(s.clone()),
                None => None,
            },
        }
    }
}

/// Mathematical model of an [`EnvironmentState`].
pub struct SpecEnvironmentState {
    pub environment_id: Seq<char>,
    pub initialized: bool,
    pub error_message: Option<Seq<char>>,
}

impl View for EnvironmentState {
    type V = SpecEnvironmentState;

    open spec fn view(&self) -> SpecEnvironmentState {
        SpecEnvironmentState {
            environment_id: self.environment_id@,
            initialized: self.initialized,
            error_message: match self.error_message {
                Some(ref s) => Some(s@),
                None => None,
            },
        }
    }
}

impl DeepView for EnvironmentState {
    type V = SpecEnvironmentState;

    open spec fn deep_view(&self) -> SpecEnvironmentState {
        self.view()
    }
}

/// The environment report a wire value denotes, if any.
pub open spec fn spec_decode_environment(v: SpecJson) -> Option<SpecEnvironmentState> {
    match v {
        SpecJson::Obj(obj) => match (
            spec_req_str(obj, "environment_id"@),
            spec_req_bool(obj, "initialized"@),
            spec_opt_str(obj, "error_message"@),
        ) {
            (Some(id), Some(initialized), Some(error_message)) => Some(
                SpecEnvironmentState { environment_id: id, initialized, error_message },
            ),
            _ => None,
        },
        _ => None,
    }
}

/// Reads an environment report, as [`spec_decode_environment`] describes.
pub fn decode_environment(v: &JsonValue) -> (r: Option<EnvironmentState>)
    ensures
        match r {
            Some(env) => spec_decode_environment(v@) == Some(env@),
            None => spec_decode_environment(v@) is None,
        },
{
    match v {
        JsonValue::Obj(fields) => {
            let environment_id = match get_req_str(fields, "environment_id") {
                Some(s) => s,
                None => {
                    return None;
                },
            };
            let initialized = match get_req_bool(fields, "initialized") {
                Some(b) => b,
                None => {
                    return None;
                },
            };
            let error_message = match get_opt_str(fields, "error_message") {
                Some(m) => m,
                None => {
                    return None;
                },
            };
            Some(EnvironmentState { environment_id, initialized, error_message })
        },
        _ => None,
    }
}

/// The task reference a wire value denotes, if any: an object whose
/// `task_id` field holds the opaque identifier.
pub open spec fn spec_decode_task_reference(v: SpecJson) -> Option<SpecTaskReference> {
    match v {
        SpecJson::Obj(obj) => match spec_req_str(obj, "task_id"@) {
            Some(id) => Some(SpecTaskReference { task_id: id }),
            None => None,
        },
        _ => None,
    }
}

/// The wire form of a task reference.
pub open spec fn spec_encode_task_reference(m: SpecTaskReference) -> SpecJson {
    SpecJson::Obj(seq![("task_id"@, SpecJson::Str(m.task_id))])
}

/// Reads a task reference, as [`spec_decode_task_reference`] describes.
pub fn decode_task_reference(v: &JsonValue) -> (r: Option<TaskReference>)
    ensures
        match r {
            Some(t) => spec_decode_task_reference(v@) == Some(t@),
            None => spec_decode_task_reference(v@) is None,
        },
{
    match v {
        JsonValue::Obj(fields) => match get_req_str(fields, "task_id") {
            Some(id) => Some(TaskReference { task_id: TaskId(id) }),
            None => None,
        },
        _ => None,
    }
}

/// Renders a task reference, as [`spec_encode_task_reference`] describes.
pub fn encode_task_reference(t: &TaskReference) -> (r: JsonValue)
    ensures
        r@ == spec_encode_task_reference(t@),
{
    let mut fields: Vec<(String, JsonValue)> = Vec::new();
    fields.push(("task_id".to_owned(), JsonValue::Str(t.task_id.0.clone())));
    let r = JsonValue::Obj(fields);
    proof {
        lemma_json_entries_view(r->Obj_0@);
        assert(json_entries_view(r->Obj_0@) =~= spec_encode_task_reference(t@)->Obj_0);
    }
    r
}

/// Encoding a task reference and decoding the result preserves it.
pub proof fn lemma_task_reference_round_trip(m: SpecTaskReference)
    ensures
        spec_decode_task_reference(spec_encode_task_reference(m)) == Some(m),
{
    reveal_with_fuel(spec_lookup, 2);
}

/// `parts` joined with `sep` between consecutive parts.
pub open spec fn spec_join(parts: Seq<Seq<char>>, sep: Seq<char>) -> Seq<char>
    decreases parts.len(),
{
    if parts.len() == 0 {
        Seq::empty()
    } else if parts.len() == 1 {
        parts[0]
    } else {
        parts[0] + sep + spec_join(parts.skip(1), sep)
    }
}

/// Joining one more part appends a separator and the part.
pub proof fn lemma_join_snoc(parts: Seq<Seq<char>>, sep: Seq<char>, last: Seq<char>)
    ensures
        spec_join(parts.push(last), sep) == if parts.len() == 0 {
            last
        } else {
            spec_join(parts, sep) + sep + last
        },
    decreases parts.len(),
{
    let whole = parts.push(last);
    if parts.len() == 0 {
        assert(whole.len() == 1);
        assert(whole[0] == last);
    } else {
        lemma_join_snoc(parts.skip(1), sep, last);
        assert(whole.skip(1) =~= parts.skip(1).push(last));
        assert(whole[0] == parts[0]);
        if parts.len() == 1 {
            assert(parts.skip(1).len() == 0);
            assert(spec_join(whole, sep) == parts[0] + sep + last);
            assert(spec_join(parts, sep) == parts[0]);
        } else {
            assert(spec_join(whole, sep) == parts[0] + sep + (spec_join(parts.skip(1), sep) + sep
                + last));
            assert(parts[0] + sep + (spec_join(parts.skip(1), sep) + sep + last) =~= (parts[0] + sep
                + spec_join(parts.skip(1), sep)) + sep + last);
        }
    }
}

/// Joins strings with a separator, as [`spec_join`] describes.
pub fn join_strings(parts: &Vec<String>, sep: &str) -> (r: String)
    ensures
        r@ == spec_join(parts.deep_view(), sep@),
{
    if parts.len() == 0 {
        let r = String::new();
        proof {
            assert(parts.deep_view() =~= Seq::<Seq<char>>::empty());
        }
        return r;
    }
    let mut r: String = parts[0].clone();
    let mut i: usize = 1;
    while i < parts.len()
        invariant
            1 <= i <= parts@.len(),
            parts.deep_view().len() == parts@.len(),
            r@ == spec_join(parts.deep_view().take(i as int), sep@),
        decreases parts@.len() - i,
    {
        r.append(sep);
        r.append(parts[i].as_str());
        proof {
            let dv = parts.deep_view();
            lemma_join_snoc(dv.take(i as int), sep@, dv[i as int]);
            assert(dv.take(i + 1) =~= dv.take(i as int).push(dv[i as int]));
        }
        i = i + 1;
    }
    proof {
        assert(parts.deep_view().take(parts@.len() as int) =~= parts.deep_view());
    }
    r
}

/// One protocol a device implements, with its type parameters.
#[derive(Debug, PartialEq, Eq)]
pub struct Protocol {
    pub name: String,
    pub types: Vec<String>,
}

/// Mathematical model of a [`Protocol`].
pub struct SpecProtocol {
    pub name: Seq<char>,
    pub types: Seq<Seq<char>>,
}

impl View for Protocol {
    type V = SpecProtocol;

    open spec fn view(&self) -> SpecProtocol {
        SpecProtocol { name: self.name@, types: self.types.deep_view() }
    }
}

impl DeepView for Protocol {
    type V = SpecProtocol;

    open spec fn deep_view(&self) -> SpecProtocol {
        self.view()
    }
}

/// How a protocol is shown: its name, then its type parameters in brackets
/// where it has any.
pub open spec fn spec_protocol_display(p: SpecProtocol) -> Seq<char> {
    if p.types.len() == 0 {
        p.name
    } else {
        p.name + "["@ + spec_join(p.types, ", "@) + "]"@
    }
}

/// The protocol a wire value denotes, if any.
pub open spec fn spec_decode_protocol(v: SpecJson) -> Option<SpecProtocol> {
    match v {
        SpecJson::Obj(obj) => match (
            spec_req_str(obj, "name"@),
            crate::json::spec_req_str_arr(obj, "types"@),
        ) {
            (Some(name), Some(types)) => Some(SpecProtocol { name, types }),
            _ => None,
        },
        _ => None,
    }
}

impl Protocol {
    /// Renders the protocol for listing, as [`spec_protocol_display`]
    /// describes.
    pub fn display_string(&self) -> (r: String)
        ensures
            r@ == spec_protocol_display(self@),
    {
        let mut r = self.name.clone();
        if self.types.len() > 0 {
            r.append("[");
            let joined = join_strings(&self.types, ", ");
            r.append(joined.as_str());
            r.append("]");
            proof {
                assert(r@ =~= spec_protocol_display(self@));
            }
        }
        r
    }
}

/// Reads a protocol, as [`spec_decode_protocol`] describes.
pub fn decode_protocol(v: &JsonValue) -> (r: Option<Protocol>)
    ensures
        match r {
            Some(p) => spec_decode_protocol(v@) == Some(p@),
            None => spec_decode_protocol(v@) is None,
        },
{
    match v {
        JsonValue::Obj(fields) => {
            let name = match get_req_str(fields, "name") {
                Some(s) => s,
                None => {
                    return None;
                },
            };
            let types = match crate::json::get_req_str_arr(fields, "types") {
                Some(t) => t,
                None => {
                    return None;
                },
            };
            Some(Protocol { name, types })
        },
        _ => None,
    }
}

/// Whether every element of `items` denotes a protocol.
pub open spec fn spec_all_protocols(items: Seq<SpecJson>) -> bool {
    forall|i: int| 0 <= i < items.len() ==> spec_decode_protocol(#[trigger] items[i]) is Some
}

/// The protocols of an all-protocol array.
pub open spec fn spec_protocol_values(items: Seq<SpecJson>) -> Seq<SpecProtocol> {
    items.map_values(|x: SpecJson| spec_decode_protocol(x)->Some_0)
}

/// Reads an array of protocols; fails on any element that is not one.
pub fn decode_protocol_list(items: &Vec<JsonValue>) -> (r: Option<Vec<Protocol>>)
    ensures
        match r {
            Some(out) => spec_all_protocols(json_seq_view(items@)) && out.deep_view()
                == spec_protocol_values(json_seq_view(items@)),
            None => !spec_all_protocols(json_seq_view(items@)),
        },
{
    proof {
        crate::json::lemma_json_seq_view(items@);
    }
    let mut out: Vec<Protocol> = Vec::new();
    let mut i: usize = 0;
    while i < items.len()
        invariant
            i <= items@.len(),
            out@.len() == i,
            forall|j: int|
                0 <= j < i ==> spec_decode_protocol(json_view(#[trigger] items@[j])) is Some,
            forall|j: int|
                0 <= j < i ==> out@[j]@ == spec_decode_protocol(
                    json_view(#[trigger] items@[j]),
                )->Some_0,
        decreases items@.len() - i,
    {
        match decode_protocol(&items[i]) {
            Some(p) => {
                out.push(p);
            },
            None => {
                proof {
                    crate::json::lemma_json_seq_view(items@);
                    assert(spec_decode_protocol(json_seq_view(items@)[i as int]) is None);
                }
                return None;
            },
        }
        i = i + 1;
    }
    proof {
        crate::json::lemma_json_seq_view(items@);
        let m = json_seq_view(items@);
        assert forall|j: int| 0 <= j < m.len() implies spec_decode_protocol(
            #[trigger] m[j],
        ) is Some by {}
        assert(out.deep_view() =~= spec_protocol_values(m));
    }
    Some(out)
}

/// A device the worker exposes, with the protocols it implements.
#[derive(Debug, PartialEq, Eq)]
pub struct Device {
    pub name: String,
    pub protocols: Vec<Protocol>,
}

/// Mathematical model of a [`Device`].
pub struct SpecDevice {
    pub name: Seq<char>,
    pub protocols: Seq<SpecProtocol>,
}

impl View for Device {
    type V = SpecDevice;

    open spec fn view(&self) -> SpecDevice {
        SpecDevice { name: self.name@, protocols: self.protocols.deep_view() }
    }
}

impl DeepView for Device {
    type V = SpecDevice;

    open spec fn deep_view(&self) -> SpecDevice {
        self.view()
    }
}

/// How a device is shown: its name, then an indented line with its
/// protocols separated by commas, where it has any.
pub open spec fn spec_device_display(d: SpecDevice) -> Seq<char> {
    if d.protocols.len() == 0 {
        d.name
    } else {
        d.name + "\n\t"@ + spec_join(
            d.protocols.map_values(|p: SpecProtocol| spec_protocol_display(p)),
            ", "@,
        )
    }
}

/// The device a wire value denotes, if any.
pub open spec fn spec_decode_device(v: SpecJson) -> Option<SpecDevice> {
    match v {
        SpecJson::Obj(obj) => match (
            spec_req_str(obj, "name"@),
            crate::json::spec_req_arr(obj, "protocols"@),
        ) {
            (Some(name), Some(items)) => if spec_all_protocols(items) {
                Some(SpecDevice { name, protocols: spec_protocol_values(items) })
            } else {
                None
            },
            _ => None,
        },
        _ => None,
    }
}

impl Device {
    /// Renders the device for listing, as [`spec_device_display`] describes.
    pub fn display_string(&self) -> (r: String)
        ensures
            r@ == spec_device_display(self@),
    {
        let mut r = self.name.clone();
        if self.protocols.len() > 0 {
            let mut parts: Vec<String> = Vec::new();
            let mut i: usize = 0;
            while i < self.protocols.len()
                invariant
                    i <= self.protocols@.len(),
                    parts@.len() == i,
                    forall|j: int|
                        0 <= j < i ==> parts@[j]@ == spec_protocol_display(
                            #[trigger] self.protocols@[j]@,
                        ),
                decreases self.protocols@.len() - i,
            {
                parts.push(self.protocols[i].display_string());
                i = i + 1;
            }
            r.append("\n\t");
            let joined = join_strings(&parts, ", ");
            r.append(joined.as_str());
            proof {
                assert(parts.deep_view() =~= self@.protocols.map_values(
                    |p: SpecProtocol| spec_protocol_display(p),
                ));
                assert(r@ =~= spec_device_display(self@));
            }
        }
        r
    }
}

/// Reads a device, as [`spec_decode_device`] describes.
pub fn decode_device(v: &JsonValue) -> (r: Option<Device>)
    ensures
        match r {
            Some(d) => spec_decode_device(v@) == Some(d@),
            None => spec_decode_device(v@) is None,
        },
{
    match v {
        JsonValue::Obj(fields) => {
            let name = match get_req_str(fields, "name") {
                Some(s) => s,
                None => {
                    return None;
                },
            };
            let items = match obj_lookup(fields, "protocols") {
                Some(JsonValue::Arr(items)) => items,
                _ => {
                    return None;
                },
            };
            let protocols = match decode_protocol_list(items) {
                Some(ps) => ps,
                None => {
                    return None;
                },
            };
            Some(Device { name, protocols })
        },
        _ => None,
    }
}

/// The devices the worker listed.
#[derive(Debug, PartialEq, Eq)]
pub struct DeviceList {
    pub devices: Vec<Device>,
}

/// Mathematical model of a [`DeviceList`].
pub struct SpecDeviceList {
    pub devices: Seq<SpecDevice>,
}

impl View for DeviceList {
    type V = SpecDeviceList;

    open spec fn view(&self) -> SpecDeviceList {
        SpecDeviceList { devices: self.devices.deep_view() }
    }
}

impl DeviceList {
    /// The listed devices.
    pub fn into_inner(self) -> (r: Vec<Device>)
        ensures
            r.deep_view() == self@.devices,
    {
        self.devices
    }
}

/// Whether every element of `items` denotes a device.
pub open spec fn spec_all_devices(items: Seq<SpecJson>) -> bool {
    forall|i: int| 0 <= i < items.len() ==> spec_decode_device(#[trigger] items[i]) is Some
}

/// The devices of an all-device array.
pub open spec fn spec_device_values(items: Seq<SpecJson>) -> Seq<SpecDevice> {
    items.map_values(|x: SpecJson| spec_decode_device(x)->Some_0)
}

/// The device list a wire value denotes, if any: an object whose `devices`
/// field holds an array of devices.
pub open spec fn spec_decode_device_list(v: SpecJson) -> Option<SpecDeviceList> {
    match v {
        SpecJson::Obj(obj) => match crate::json::spec_req_arr(obj, "devices"@) {
            Some(items) => if spec_all_devices(items) {
                Some(SpecDeviceList { devices: spec_device_values(items) })
            } else {
                None
            },
            None => None,
        },
        _ => None,
    }
}

/// Reads a device list, as [`spec_decode_device_list`] describes.
#[verifier::loop_isolation(false)]
pub fn decode_device_list(v: &JsonValue) -> (r: Option<DeviceList>)
    ensures
        match r {
            Some(d) => spec_decode_device_list(v@) == Some(d@),
            None => spec_decode_device_list(v@) is None,
        },
{
    match v {
        JsonValue::Obj(fields) => {
            let items = match obj_lookup(fields, "devices") {
                Some(JsonValue::Arr(items)) => items,
                _ => {
                    return None;
                },
            };
            proof {
                crate::json::lemma_json_seq_view(items@);
            }
            let mut out: Vec<Device> = Vec::new();
            let mut i: usize = 0;
            while i < items.len()
                invariant
                    i <= items@.len(),
                    out@.len() == i,
                    forall|j: int|
                        0 <= j < i ==> spec_decode_device(json_view(#[trigger] items@[j])) is Some,
                    forall|j: int|
                        0 <= j < i ==> out@[j]@ == spec_decode_device(
                            json_view(#[trigger] items@[j]),
                        )->Some_0,
                decreases items@.len() - i,
            {
                match decode_device(&items[i]) {
                    Some(d) => {
                        out.push(d);
                    },
                    None => {
                        proof {
                            crate::json::lemma_json_seq_view(items@);
                            assert(spec_decode_device(json_seq_view(items@)[i as int]) is None);
                        }
                        return None;
                    },
                }
                i = i + 1;
            }
            proof {
                crate::json::lemma_json_seq_view(items@);
                let m = json_seq_view(items@);
                assert forall|j: int| 0 <= j < m.len() implies spec_decode_device(
                    #[trigger] m[j],
                ) is Some by {}
                assert(out.deep_view() =~= spec_device_values(m));
            }
            Some(DeviceList { devices: out })
        },
        _ => None,
    }
}

/// One plan the worker can execute.
#[derive(Debug, PartialEq, Eq)]
pub struct PlanSpec {
    pub name: String,
    pub description: Option<String>,
}

/// Mathematical model of a [`PlanSpec`].
pub struct SpecPlanSpec {
    pub name: Seq<char>,
    pub description: Option<Seq<char>>,
}

impl View for PlanSpec {
    type V = SpecPlanSpec;

    open spec fn view(&self) -> SpecPlanSpec {
        SpecPlanSpec { name: self.name@, description: self.description.deep_view() }
    }
}

impl DeepView for PlanSpec {
    type V = SpecPlanSpec;

    open spec fn deep_view(&self) -> SpecPlanSpec {
        self.view()
    }
}

/// The plan a wire value denotes, if any.
pub open spec fn spec_decode_plan(v: SpecJson) -> Option<SpecPlanSpec> {
    match v {
        SpecJson::Obj(obj) => match (
            spec_req_str(obj, "name"@),
            spec_opt_str(obj, "description"@),
        ) {
            (Some(name), Some(description)) => Some(SpecPlanSpec { name, description }),
            _ => None,
        },
        _ => None,
    }
}

/// Reads a plan, as [`spec_decode_plan`] describes.
pub fn decode_plan(v: &JsonValue) -> (r: Option<PlanSpec>)
    ensures
        match r {
            Some(p) => spec_decode_plan(v@) == Some(p@),
            None => spec_decode_plan(v@) is None,
        },
{
    match v {
        JsonValue::Obj(fields) => {
            let name = match get_req_str(fields, "name") {
                Some(s) => s,
                None => {
                    return None;
                },
            };
            let description = match get_opt_str(fields, "description") {
                Some(d) => d,
                None => {
                    return None;
                },
            };
            Some(PlanSpec { name, description })
        },
        _ => None,
    }
}

/// The plans the worker listed.
#[derive(Debug, PartialEq, Eq)]
pub struct PlanList {
    pub plans: Vec<PlanSpec>,
}

/// Mathematical model of a [`PlanList`].
pub struct SpecPlanList {
    pub plans: Seq<SpecPlanSpec>,
}

impl View for PlanList {
    type V = SpecPlanList;

    open spec fn view(&self) -> SpecPlanList {
        SpecPlanList { plans: self.plans.deep_view() }
    }
}

/// Whether every element of `items` denotes a plan.
pub open spec fn spec_all_plans(items: Seq<SpecJson>) -> bool {
    forall|i: int| 0 <= i < items.len() ==> spec_decode_plan(#[trigger] items[i]) is Some
}

/// The plans of an all-plan array.
pub open spec fn spec_plan_values(items: Seq<SpecJson>) -> Seq<SpecPlanSpec> {
    items.map_values(|x: SpecJson| spec_decode_plan(x)->Some_0)
}

/// The plan list a wire value denotes, if any: an object whose `plans`
/// field holds an array of plans.
pub open spec fn spec_decode_plan_list(v: SpecJson) -> Option<SpecPlanList> {
    match v {
        SpecJson::Obj(obj) => match crate::json::spec_req_arr(obj, "plans"@) {
            Some(items) => if spec_all_plans(items) {
                Some(SpecPlanList { plans: spec_plan_values(items) })
            } else {
                None
            },
            None => None,
        },
        _ => None,
    }
}

/// Reads a plan list, as [`spec_decode_plan_list`] describes.
#[verifier::loop_isolation(false)]
pub fn decode_plan_list(v: &JsonValue) -> (r: Option<PlanList>)
    ensures
        match r {
            Some(p) => spec_decode_plan_list(v@) == Some(p@),
            None => spec_decode_plan_list(v@) is None,
        },
{
    match v {
        JsonValue::Obj(fields) => {
            let items = match obj_lookup(fields, "plans") {
                Some(JsonValue::Arr(items)) => items,
                _ => {
                    return None;
                },
            };
            proof {
                crate::json::lemma_json_seq_view(items@);
            }
            let mut out: Vec<PlanSpec> = Vec::new();
            let mut i: usize = 0;
            while i < items.len()
                invariant
                    i <= items@.len(),
                    out@.len() == i,
                    forall|j: int|
                        0 <= j < i ==> spec_decode_plan(json_view(#[trigger] items@[j])) is Some,
                    forall|j: int|
                        0 <= j < i ==> out@[j]@ == spec_decode_plan(
                            json_view(#[trigger] items@[j]),
                        )->Some_0,
                decreases items@.len() - i,
            {
                match decode_plan(&items[i]) {
                    Some(p) => {
                        out.push(p);
                    },
                    None => {
                        proof {
                            crate::json::lemma_json_seq_view(items@);
                            assert(spec_decode_plan(json_seq_view(items@)[i as int]) is None);
                        }
                        return None;
                    },
                }
                i = i + 1;
            }
            proof {
                crate::json::lemma_json_seq_view(items@);
                let m = json_seq_view(items@);
                assert forall|j: int| 0 <= j < m.len() implies spec_decode_plan(
                    #[trigger] m[j],
                ) is Some by {}
                assert(out.deep_view() =~= spec_plan_values(m));
            }
            Some(PlanList { plans: out })
        },
        _ => None,
    }
}

/// One installed package of the worker's scripting environment.
#[derive(Debug, PartialEq, Eq)]
pub struct PackageInfo {
    pub name: String,
    pub version: String,
}

/// Mathematical model of a [`PackageInfo`].
pub struct SpecPackageInfo {
    pub name: Seq<char>,
    pub version: Seq<char>,
}

impl View for PackageInfo {
    type V = SpecPackageInfo;

    open spec fn view(&self) -> SpecPackageInfo {
        SpecPackageInfo { name: self.name@, version: self.version@ }
    }
}

impl DeepView for PackageInfo {
    type V = SpecPackageInfo;

    open spec fn deep_view(&self) -> SpecPackageInfo {
        self.view()
    }
}

/// How a package is shown: its name, ` @ `, its version.
pub open spec fn spec_package_display(p: SpecPackageInfo) -> Seq<char> {
    p.name + " @ "@ + p.version
}

impl PackageInfo {
    /// Renders the package for listing, as [`spec_package_display`]
    /// describes.
    pub fn display_string(&self) -> (r: String)
        ensures
            r@ == spec_package_display(self@),
    {
        let mut r = self.name.clone();
        r.append(" @ ");
        r.append(self.version.as_str());
        r
    }
}

/// The package a wire value denotes, if any.
pub open spec fn spec_decode_package(v: SpecJson) -> Option<SpecPackageInfo> {
    match v {
        SpecJson::Obj(obj) => match (spec_req_str(obj, "name"@), spec_req_str(obj, "version"@)) {
            (Some(name), Some(version)) => Some(SpecPackageInfo { name, version }),
            _ => None,
        },
        _ => None,
    }
}

/// Reads a package, as [`spec_decode_package`] describes.
pub fn decode_package(v: &JsonValue) -> (r: Option<PackageInfo>)
    ensures
        match r {
            Some(p) => spec_decode_package(v@) == Some(p@),
            None => spec_decode_package(v@) is None,
        },
{
    match v {
        JsonValue::Obj(fields) => {
            let name = match get_req_str(fields, "name") {
                Some(s) => s,
                None => {
                    return None;
                },
            };
            let version = match get_req_str(fields, "version") {
                Some(s) => s,
                None => {
                    return None;
                },
            };
            Some(PackageInfo { name, version })
        },
        _ => None,
    }
}

/// The worker's scripting environment: its installed packages and whether a
/// scratch area is enabled.
#[derive(Debug, PartialEq, Eq)]
pub struct PythonEnvironment {
    pub installed_packages: Vec<PackageInfo>,
    pub scratch_enabled: bool,
}

/// Mathematical model of a [`PythonEnvironment`].
pub struct SpecPythonEnvironment {
    pub installed_packages: Seq<SpecPackageInfo>,
    pub scratch_enabled: bool,
}

impl View for PythonEnvironment {
    type V = SpecPythonEnvironment;

    open spec fn view(&self) -> SpecPythonEnvironment {
        SpecPythonEnvironment {
            installed_packages: self.installed_packages.deep_view(),
            scratch_enabled: self.scratch_enabled,
        }
    }
}

/// Whether every element of `items` denotes a package.
pub open spec fn spec_all_packages(items: Seq<SpecJson>) -> bool {
    forall|i: int| 0 <= i < items.len() ==> spec_decode_package(#[trigger] items[i]) is Some
}

/// The packages of an all-package array.
pub open spec fn spec_package_values(items: Seq<SpecJson>) -> Seq<SpecPackageInfo> {
    items.map_values(|x: SpecJson| spec_decode_package(x)->Some_0)
}

/// The scripting-environment report a wire value denotes, if any.
pub open spec fn spec_decode_python_environment(v: SpecJson) -> Option<SpecPythonEnvironment> {
    match v {
        SpecJson::Obj(obj) => match (
            crate::json::spec_req_arr(obj, "installed_packages"@),
            spec_req_bool(obj, "scratch_enabled"@),
        ) {
            (Some(items), Some(scratch_enabled)) => if spec_all_packages(items) {
                Some(
                    SpecPythonEnvironment {
                        installed_packages: spec_package_values(items),
                        scratch_enabled,
                    },
                )
            } else {
                None
            },
            _ => None,
        },
        _ => None,
    }
}

/// Reads a scripting-environment report, as
/// [`spec_decode_python_environment`] describes.
#[verifier::loop_isolation(false)]
pub fn decode_python_environment(v: &JsonValue) -> (r: Option<PythonEnvironment>)
    ensures
        match r {
            Some(p) => spec_decode_python_environment(v@) == Some(p@),
            None => spec_decode_python_environment(v@) is None,
        },
{
    match v {
        JsonValue::Obj(fields) => {
            let scratch_enabled = match get_req_bool(fields, "scratch_enabled") {
                Some(b) => b,
                None => {
                    return None;
                },
            };
            let items = match obj_lookup(fields, "installed_packages") {
                Some(JsonValue::Arr(items)) => items,
                _ => {
                    return None;
                },
            };
            proof {
                crate::json::lemma_json_seq_view(items@);
            }
            let mut out: Vec<PackageInfo> = Vec::new();
            let mut i: usize = 0;
            while i < items.len()
                invariant
                    i <= items@.len(),
                    out@.len() == i,
                    forall|j: int|
                        0 <= j < i ==> spec_decode_package(json_view(#[trigger] items@[j])) is Some,
                    forall|j: int|
                        0 <= j < i ==> out@[j]@ == spec_decode_package(
                            json_view(#[trigger] items@[j]),
                        )->Some_0,
                decreases items@.len() - i,
            {
                match decode_package(&items[i]) {
                    Some(p) => {
                        out.push(p);
                    },
                    None => {
                        proof {
                            crate::json::lemma_json_seq_view(items@);
                            assert(spec_decode_package(json_seq_view(items@)[i as int]) is None);
                        }
                        return None;
                    },
                }
                i = i + 1;
            }
            proof {
                crate::json::lemma_json_seq_view(items@);
                let m = json_seq_view(items@);
                assert forall|j: int| 0 <= j < m.len() implies spec_decode_package(
                    #[trigger] m[j],
                ) is Some by {}
                assert(out.deep_view() =~= spec_package_values(m));
            }
            Some(PythonEnvironment { installed_packages: out, scratch_enabled })
        },
        _ => None,
    }
}

/// Where an installed package came from.
#[derive(Debug, Clone, Copy, PartialEq, Eq, Structural)]
pub enum SourceInfo {
    PyPI,
    Scratch,
}

/// The wire name of a package source.
pub open spec fn spec_source_name(s: SourceInfo) -> Seq<char> {
    match s {
        SourceInfo::PyPI => "pypi"@,
        SourceInfo::Scratch => "scratch"@,
    }
}

impl SourceInfo {
    /// Renders the source under its wire name.
    pub fn query_name(&self) -> (r: String)
        ensures
            r@ == spec_source_name(*self),
    {
        match self {
            SourceInfo::PyPI => "pypi".to_owned(),
            SourceInfo::Scratch => "scratch".to_owned(),
        }
    }
}

/// Connection settings for the authorization service. Carried as
/// configuration; the library takes no decisions on it.
#[derive(Debug, PartialEq, Eq)]
pub struct AuthConfig {
    pub well_known_url: String,
    pub client_id: String,
    pub client_audience: String,
    pub logout_redirect_endpoint: String,
}

} // verus!
