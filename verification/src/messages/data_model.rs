//! The event-document protocol: the tagged union of structured records
//! describing an experiment run, and its decoders.
//!
//! A document arrives as a `name` tag naming the variant and a `doc` object
//! holding its content; an unknown tag is a decode failure, never silently
//! dropped. Identifiers are opaque comparable tokens; numbers that the
//! client only carries (times, readings) stay as [`JsonNum`] wire numbers.

use vstd::prelude::*;

use crate::json::{
    JsonNum, JsonValue, SpecJson, SpecJsonNum, json_entries_view, json_seq_view, json_view,
    lemma_json_entries_view, lemma_json_seq_view, spec_lookup, spec_req_str, spec_opt_str,
    spec_req_num, spec_opt_num, spec_num_i32, spec_req_i32, spec_req_u32, spec_opt_i32,
    spec_opt_u32, spec_req_obj, spec_obj_or_empty, spec_req_val, spec_opt_val, spec_req_arr,
    spec_req_str_arr, spec_str_arr_or_empty, get_req_str, get_opt_str, get_req_num, get_opt_num,
    num_i32, get_req_i32, get_req_u32, get_opt_i32, get_opt_u32, get_req_obj, get_obj_or_empty,
    get_req_val, get_opt_val, get_req_str_arr, get_str_arr_or_empty, obj_lookup, str_eq,
    clone_entries, clone_list,
};

verus! {

/// The authoritative outcome of a completed run, reported by a stop record.
#[derive(Debug, Clone, Copy, PartialEq, Eq, Structural)]
pub enum ExitStatus {
    Success,
    Abort,
    Fail,
}

/// The exit status a wire name denotes, if any.
pub open spec fn spec_exit_status(s: Seq<char>) -> Option<ExitStatus> {
    if s == "success"@ {
        Some(ExitStatus::Success)
    } else if s == "abort"@ {
        Some(ExitStatus::Abort)
    } else if s == "fail"@ {
        Some(ExitStatus::Fail)
    } else {
        None
    }
}

/// Reads an exit status, as [`spec_exit_status`] describes.
pub fn parse_exit_status(s: &str) -> (r: Option<ExitStatus>)
    ensures
        r == spec_exit_status(s@),
{
    if str_eq(s, "success") {
        Some(ExitStatus::Success)
    } else if str_eq(s, "abort") {
        Some(ExitStatus::Abort)
    } else if str_eq(s, "fail") {
        Some(ExitStatus::Fail)
    } else {
        None
    }
}

/// How a resource path is to be interpreted.
#[derive(Debug, Clone, Copy, PartialEq, Eq, Structural)]
pub enum PathSemantics {
    Posix,
    Windows,
}

/// The path semantics a wire name denotes, if any.
pub open spec fn spec_path_semantics(s: Seq<char>) -> Option<PathSemantics> {
    if s == "posix"@ {
        Some(PathSemantics::Posix)
    } else if s == "windows"@ {
        Some(PathSemantics::Windows)
    } else {
        None
    }
}

/// Reads path semantics, as [`spec_path_semantics`] describes.
pub fn parse_path_semantics(s: &str) -> (r: Option<PathSemantics>)
    ensures
        r == spec_path_semantics(s@),
{
    if str_eq(s, "posix") {
        Some(PathSemantics::Posix)
    } else if str_eq(s, "windows") {
        Some(PathSemantics::Windows)
    } else {
        None
    }
}

/// The shape of the values a data key describes.
#[derive(Debug, Clone, Copy, PartialEq, Eq, Structural)]
pub enum DataType {
    String,
    Number,
    Array,
    Boolean,
    Integer,
}

/// The data type a wire name denotes, if any.
pub open spec fn spec_data_type(s: Seq<char>) -> Option<DataType> {
    if s == "string"@ {
        Some(DataType::String)
    } else if s == "number"@ {
        Some(DataType::Number)
    } else if s == "array"@ {
        Some(DataType::Array)
    } else if s == "boolean"@ {
        Some(DataType::Boolean)
    } else if s == "integer"@ {
        Some(DataType::Integer)
    } else {
        None
    }
}

/// Reads a data type, as [`spec_data_type`] describes.
pub fn parse_data_type(s: &str) -> (r: Option<DataType>)
    ensures
        r == spec_data_type(s@),
{
    if str_eq(s, "string") {
        Some(DataType::String)
    } else if str_eq(s, "number") {
        Some(DataType::Number)
    } else if str_eq(s, "array") {
        Some(DataType::Array)
    } else if str_eq(s, "boolean") {
        Some(DataType::Boolean)
    } else if str_eq(s, "integer") {
        Some(DataType::Integer)
    } else {
        None
    }
}

/// A half-open range of indices in a stream.
#[derive(Debug, Clone, Copy, PartialEq, Eq, Structural)]
pub struct StreamRange {
    pub start: i32,
    pub stop: i32,
}

/// The stream range a wire value denotes, if any.
pub open spec fn spec_decode_stream_range(v: SpecJson) -> Option<StreamRange> {
    match v {
        SpecJson::Obj(obj) => match (spec_req_i32(obj, "start"@), spec_req_i32(obj, "stop"@)) {
            (Some(start), Some(stop)) => Some(StreamRange { start, stop }),
            _ => None,
        },
        _ => None,
    }
}

/// Reads a stream range, as [`spec_decode_stream_range`] describes.
pub fn decode_stream_range(v: &JsonValue) -> (r: Option<StreamRange>)
    ensures
        r == spec_decode_stream_range(v@),
{
    match v {
        JsonValue::Obj(fields) => {
            let start = match get_req_i32(fields, "start") {
                Some(n) => n,
                None => {
                    return None;
                },
            };
            let stop = match get_req_i32(fields, "stop") {
                Some(n) => n,
                None => {
                    return None;
                },
            };
            Some(StreamRange { start, stop })
        },
        _ => None,
    }
}

// ------------------------------------------------------------------
// Helpers for the recurring collection shapes of documents.
// ------------------------------------------------------------------
/// Whether every field of `fields` holds an `i32` number.
pub open spec fn spec_all_values_i32(fields: Seq<(Seq<char>, SpecJson)>) -> bool {
    forall|i: int|
        0 <= i < fields.len() ==> ((#[trigger] fields[i].1) matches SpecJson::Num(n)
            && spec_num_i32(n) is Some)
}

/// The named counts of an all-`i32` field list.
pub open spec fn spec_i32_entries(fields: Seq<(Seq<char>, SpecJson)>) -> Seq<(Seq<char>, i32)> {
    fields.map_values(|p: (Seq<char>, SpecJson)| (p.0, spec_num_i32(p.1->Num_0)->Some_0))
}

/// Reads named counts; fails where a value is not an `i32` number.
pub fn decode_i32_entries(fields: &Vec<(String, JsonValue)>) -> (r: Option<Vec<(String, i32)>>)
    ensures
        match r {
            Some(out) => spec_all_values_i32(json_entries_view(fields@)) && out.deep_view()
                == spec_i32_entries(json_entries_view(fields@)),
            None => !spec_all_values_i32(json_entries_view(fields@)),
        },
{
    proof {
        lemma_json_entries_view(fields@);
    }
    let mut out: Vec<(String, i32)> = Vec::new();
    let mut i: usize = 0;
    while i < fields.len()
        invariant
            i <= fields@.len(),
            out@.len() == i,
            forall|j: int|
                0 <= j < i ==> (json_view(#[trigger] fields@[j].1) matches SpecJson::Num(n)
                    && spec_num_i32(n) is Some),
            forall|j: int|
                0 <= j < i ==> #[trigger] out@[j].0@ == fields@[j].0@ && out@[j].1 == spec_num_i32(
                    json_view(fields@[j].1)->Num_0,
                )->Some_0,
        decreases fields@.len() - i,
    {
        let pair = &fields[i];
        match &pair.1 {
            JsonValue::Num(n) => match num_i32(n) {
                Some(value) => {
                    out.push((pair.0.clone(), value));
                },
                None => {
                    proof {
                        lemma_json_entries_view(fields@);
                        assert(!spec_all_values_i32(json_entries_view(fields@))) by {
                            assert(json_entries_view(fields@)[i as int].1 == json_view(
                                fields@[i as int].1,
                            ));
                        }
                    }
                    return None;
                },
            },
            _ => {
                proof {
                    lemma_json_entries_view(fields@);
                    assert(!spec_all_values_i32(json_entries_view(fields@))) by {
                        assert(json_entries_view(fields@)[i as int].1 == json_view(
                            fields@[i as int].1,
                        ));
                    }
                }
                return None;
            },
        }
        i = i + 1;
    }
    proof {
        lemma_json_entries_view(fields@);
        let m = json_entries_view(fields@);
        assert forall|j: int| 0 <= j < m.len() implies (#[trigger] m[j].1) matches SpecJson::Num(n)
            && spec_num_i32(n) is Some by {
            assert(m[j].1 == json_view(fields@[j].1));
        }
        assert(out.deep_view() =~= spec_i32_entries(m)) by {
            assert forall|j: int| 0 <= j < m.len() implies out.deep_view()[j] == spec_i32_entries(
                m,
            )[j] by {
                assert(m[j] == (fields@[j].0@, json_view(fields@[j].1)));
            }
        }
    }
    Some(out)
}

/// Whether every element of `items` is a number.
pub open spec fn spec_all_numbers(items: Seq<SpecJson>) -> bool {
    forall|i: int| 0 <= i < items.len() ==> (#[trigger] items[i]) is Num
}

/// The numbers of an all-number array.
pub open spec fn spec_num_values(items: Seq<SpecJson>) -> Seq<SpecJsonNum> {
    items.map_values(|x: SpecJson| x->Num_0)
}

/// Reads an all-number array; fails on any other element.
pub fn decode_num_list(items: &Vec<JsonValue>) -> (r: Option<Vec<JsonNum>>)
    ensures
        match r {
            Some(out) => spec_all_numbers(json_seq_view(items@)) && out.deep_view()
                == spec_num_values(json_seq_view(items@)),
            None => !spec_all_numbers(json_seq_view(items@)),
        },
{
    proof {
        lemma_json_seq_view(items@);
    }
    let mut out: Vec<JsonNum> = Vec::new();
    let mut i: usize = 0;
    while i < items.len()
        invariant
            i <= items@.len(),
            out@.len() == i,
            forall|j: int| 0 <= j < i ==> json_view(#[trigger] items@[j]) is Num,
            forall|j: int| 0 <= j < i ==> out@[j]@ == json_view(#[trigger] items@[j])->Num_0,
        decreases items@.len() - i,
    {
        match &items[i] {
            JsonValue::Num(n) => {
                out.push(n.clone());
            },
            _ => {
                proof {
                    lemma_json_seq_view(items@);
                    assert(!(json_seq_view(items@)[i as int] is Num));
                }
                return None;
            },
        }
        i = i + 1;
    }
    proof {
        lemma_json_seq_view(items@);
        let m = json_seq_view(items@);
        assert forall|j: int| 0 <= j < m.len() implies (#[trigger] m[j]) is Num by {}
        assert(out.deep_view() =~= spec_num_values(m));
    }
    Some(out)
}

/// Whether every element of `items` is an `i32` number.
pub open spec fn spec_all_i32(items: Seq<SpecJson>) -> bool {
    forall|i: int|
        0 <= i < items.len() ==> ((#[trigger] items[i]) matches SpecJson::Num(n)
            && spec_num_i32(n) is Some)
}

/// The values of an all-`i32` array.
pub open spec fn spec_i32_values(items: Seq<SpecJson>) -> Seq<i32> {
    items.map_values(|x: SpecJson| spec_num_i32(x->Num_0)->Some_0)
}

/// Reads an all-`i32` array; fails on any other element.
pub fn decode_i32_list(items: &Vec<JsonValue>) -> (r: Option<Vec<i32>>)
    ensures
        match r {
            Some(out) => spec_all_i32(json_seq_view(items@)) && out.deep_view() == spec_i32_values(
                json_seq_view(items@),
            ),
            None => !spec_all_i32(json_seq_view(items@)),
        },
{
    proof {
        lemma_json_seq_view(items@);
    }
    let mut out: Vec<i32> = Vec::new();
    let mut i: usize = 0;
    while i < items.len()
        invariant
            i <= items@.len(),
            out@.len() == i,
            forall|j: int|
                0 <= j < i ==> (json_view(#[trigger] items@[j]) matches SpecJson::Num(n)
                    && spec_num_i32(n) is Some),
            forall|j: int|
                0 <= j < i ==> #[trigger] out@[j] == spec_num_i32(
                    json_view(items@[j])->Num_0,
                )->Some_0,
        decreases items@.len() - i,
    {
        match &items[i] {
            JsonValue::Num(n) => match num_i32(n) {
                Some(value) => {
                    out.push(value);
                },
                None => {
                    proof {
                        lemma_json_seq_view(items@);
                        assert(!spec_all_i32(json_seq_view(items@))) by {
                            assert(json_seq_view(items@)[i as int] == json_view(items@[i as int]));
                        }
                    }
                    return None;
                },
            },
            _ => {
                proof {
                    lemma_json_seq_view(items@);
                    assert(!spec_all_i32(json_seq_view(items@))) by {
                        assert(json_seq_view(items@)[i as int] == json_view(items@[i as int]));
                    }
                }
                return None;
            },
        }
        i = i + 1;
    }
    proof {
        lemma_json_seq_view(items@);
        let m = json_seq_view(items@);
        assert forall|j: int| 0 <= j < m.len() implies (#[trigger] m[j]) matches SpecJson::Num(n)
            && spec_num_i32(n) is Some by {
            assert(m[j] == json_view(items@[j]));
        }
        assert(out.deep_view() =~= spec_i32_values(m));
    }
    Some(out)
}

/// Whether every field of `fields` holds an array.
pub open spec fn spec_all_values_arrays(fields: Seq<(Seq<char>, SpecJson)>) -> bool {
    forall|i: int| 0 <= i < fields.len() ==> (#[trigger] fields[i].1) is Arr
}

/// The named element lists of an all-array field list.
pub open spec fn spec_arr_entries(fields: Seq<(Seq<char>, SpecJson)>) -> Seq<
    (Seq<char>, Seq<SpecJson>),
> {
    fields.map_values(|p: (Seq<char>, SpecJson)| (p.0, p.1->Arr_0))
}

/// Reads named arrays; fails where a value is not an array.
pub fn decode_arr_entries(fields: &Vec<(String, JsonValue)>) -> (r: Option<
    Vec<(String, Vec<JsonValue>)>,
>)
    ensures
        match r {
            Some(out) => spec_all_values_arrays(json_entries_view(fields@)) && out.deep_view()
                == spec_arr_entries(json_entries_view(fields@)),
            None => !spec_all_values_arrays(json_entries_view(fields@)),
        },
{
    proof {
        lemma_json_entries_view(fields@);
    }
    let mut out: Vec<(String, Vec<JsonValue>)> = Vec::new();
    let mut i: usize = 0;
    while i < fields.len()
        invariant
            i <= fields@.len(),
            out@.len() == i,
            forall|j: int| 0 <= j < i ==> json_view(#[trigger] fields@[j].1) is Arr,
            forall|j: int|
                0 <= j < i ==> #[trigger] out@[j].0@ == fields@[j].0@ && json_seq_view(out@[j].1@)
                    == json_view(fields@[j].1)->Arr_0,
        decreases fields@.len() - i,
    {
        let pair = &fields[i];
        match &pair.1 {
            JsonValue::Arr(items) => {
                let copy = clone_list(items);
                proof {
                    lemma_json_seq_view(copy@);
                    lemma_json_seq_view(items@);
                    assert(json_seq_view(copy@) =~= json_seq_view(items@));
                }
                out.push((pair.0.clone(), copy));
            },
            _ => {
                proof {
                    lemma_json_entries_view(fields@);
                    assert(!spec_all_values_arrays(json_entries_view(fields@))) by {
                        assert(json_entries_view(fields@)[i as int].1 == json_view(
                            fields@[i as int].1,
                        ));
                    }
                }
                return None;
            },
        }
        i = i + 1;
    }
    proof {
        lemma_json_entries_view(fields@);
        let m = json_entries_view(fields@);
        assert forall|j: int| 0 <= j < m.len() implies (#[trigger] m[j].1) is Arr by {
            assert(m[j].1 == json_view(fields@[j].1));
        }
        assert(out.deep_view() =~= spec_arr_entries(m)) by {
            assert forall|j: int| 0 <= j < m.len() implies out.deep_view()[j] == spec_arr_entries(
                m,
            )[j] by {
                assert(m[j] == (fields@[j].0@, json_view(fields@[j].1)));
                crate::json::lemma_list_deep_view(out@[j].1);
            }
        }
    }
    Some(out)
}

/// What a start record says about the sample under study: either a
/// free-form description or a link to another run's identifier.
#[derive(Debug, PartialEq, Eq)]
pub enum SampleInfo {
    Info(Vec<(String, JsonValue)>),
    Link(String),
}

/// Mathematical model of a [`SampleInfo`].
pub enum SpecSampleInfo {
    Info(Seq<(Seq<char>, SpecJson)>),
    Link(Seq<char>),
}

impl View for SampleInfo {
    type V = SpecSampleInfo;

    open spec fn view(&self) -> SpecSampleInfo {
        match self {
            SampleInfo::Info(fields) => SpecSampleInfo::Info(json_entries_view(fields@)),
            SampleInfo::Link(id) => SpecSampleInfo::Link(id@),
        }
    }
}

impl DeepView for SampleInfo {
    type V = SpecSampleInfo;

    open spec fn deep_view(&self) -> SpecSampleInfo {
        self.view()
    }
}

/// The sample description a wire value denotes, if any: an object is a
/// free-form description, a string links to another run.
pub open spec fn spec_decode_sample(v: SpecJson) -> Option<SpecSampleInfo> {
    match v {
        SpecJson::Obj(fields) => Some(SpecSampleInfo::Info(fields)),
        SpecJson::Str(s) => Some(SpecSampleInfo::Link(s)),
        _ => None,
    }
}

/// Reads a sample description, as [`spec_decode_sample`] describes.
pub fn decode_sample(v: &JsonValue) -> (r: Option<SampleInfo>)
    ensures
        match r {
            Some(s) => spec_decode_sample(v@) == Some(s@),
            None => spec_decode_sample(v@) is None,
        },
{
    match v {
        JsonValue::Obj(fields) => {
            let copy = clone_entries(fields);
            proof {
                lemma_json_entries_view(copy@);
                lemma_json_entries_view(fields@);
                assert(json_entries_view(copy@) =~= json_entries_view(fields@));
            }
            Some(SampleInfo::Info(copy))
        },
        JsonValue::Str(s) => Some(SampleInfo::Link(s.clone())),
        _ => None,
    }
}

/// An optional sample field: absent or `null` means none; any other value
/// must denote a sample description.
pub open spec fn spec_opt_sample(obj: Seq<(Seq<char>, SpecJson)>) -> Option<
    Option<SpecSampleInfo>,
> {
    match spec_lookup(obj, "sample"@) {
        None => Some(None),
        Some(SpecJson::Null) => Some(None),
        Some(w) => match spec_decode_sample(w) {
            Some(si) => Some(Some(si)),
            None => None,
        },
    }
}

/// The record closing a run, with its authoritative outcome.
#[derive(Debug, PartialEq, Eq)]
pub struct Stop {
    pub data_type: Option<JsonValue>,
    pub exit_status: ExitStatus,
    pub num_events: Vec<(String, i32)>,
    pub reason: Option<String>,
    pub run_start: String,
    pub time: JsonNum,
    pub uid: String,
}

/// Mathematical model of a [`Stop`].
pub struct SpecStop {
    pub data_type: Option<SpecJson>,
    pub exit_status: ExitStatus,
    pub num_events: Seq<(Seq<char>, i32)>,
    pub reason: Option<Seq<char>>,
    pub run_start: Seq<char>,
    pub time: SpecJsonNum,
    pub uid: Seq<char>,
}

impl View for Stop {
    type V = SpecStop;

    open spec fn view(&self) -> SpecStop {
        SpecStop {
            data_type: self.data_type.deep_view(),
            exit_status: self.exit_status,
            num_events: self.num_events.deep_view(),
            reason: self.reason.deep_view(),
            run_start: self.run_start@,
            time: self.time@,
            uid: self.uid@,
        }
    }
}

/// The stop record a wire object denotes, if any.
pub open spec fn spec_decode_stop(v: SpecJson) -> Option<SpecStop> {
    match v {
        SpecJson::Obj(obj) => if spec_opt_val(obj, "data_type"@) is Some && (spec_req_str(
            obj,
            "exit_status"@,
        ) matches Some(sname) && spec_exit_status(sname) is Some) && (spec_obj_or_empty(
            obj,
            "num_events"@,
        ) matches Some(ne) && spec_all_values_i32(ne)) && spec_opt_str(obj, "reason"@) is Some
            && spec_req_str(obj, "run_start"@) is Some && spec_req_num(obj, "time"@) is Some
            && spec_req_str(obj, "uid"@) is Some {
            Some(
                SpecStop {
                    data_type: spec_opt_val(obj, "data_type"@)->Some_0,
                    exit_status: spec_exit_status(spec_req_str(obj, "exit_status"@)->Some_0)->Some_0,
                    num_events: spec_i32_entries(spec_obj_or_empty(obj, "num_events"@)->Some_0),
                    reason: spec_opt_str(obj, "reason"@)->Some_0,
                    run_start: spec_req_str(obj, "run_start"@)->Some_0,
                    time: spec_req_num(obj, "time"@)->Some_0,
                    uid: spec_req_str(obj, "uid"@)->Some_0,
                },
            )
        } else {
            None
        },
        _ => None,
    }
}

/// Reads a stop record, as [`spec_decode_stop`] describes.
pub fn decode_stop(v: &JsonValue) -> (r: Option<Stop>)
    ensures
        match r {
            Some(d) => spec_decode_stop(v@) == Some(d@),
            None => spec_decode_stop(v@) is None,
        },
{
    match v {
        JsonValue::Obj(fields) => {
            let data_type = match get_opt_val(fields, "data_type") {
                Some(w) => w,
                None => {
                    return None;
                },
            };
            let sname = match get_req_str(fields, "exit_status") {
                Some(s) => s,
                None => {
                    return None;
                },
            };
            let exit_status = match parse_exit_status(sname.as_str()) {
                Some(e) => e,
                None => {
                    return None;
                },
            };
            let ne_fields = match get_obj_or_empty(fields, "num_events") {
                Some(ne) => ne,
                None => {
                    return None;
                },
            };
            let num_events = match decode_i32_entries(&ne_fields) {
                Some(ne) => ne,
                None => {
                    return None;
                },
            };
            let reason = match get_opt_str(fields, "reason") {
                Some(re) => re,
                None => {
                    return None;
                },
            };
            let run_start = match get_req_str(fields, "run_start") {
                Some(s) => s,
                None => {
                    return None;
                },
            };
            let time = match get_req_num(fields, "time") {
                Some(t) => t,
                None => {
                    return None;
                },
            };
            let uid = match get_req_str(fields, "uid") {
                Some(s) => s,
                None => {
                    return None;
                },
            };
            Some(Stop { data_type, exit_status, num_events, reason, run_start, time, uid })
        },
        _ => None,
    }
}

/// The record opening a run, with its session metadata.
#[derive(Debug, PartialEq, Eq)]
pub struct Start {
    pub data_groups: Vec<String>,
    pub data_session: Option<String>,
    pub group: Option<String>,
    pub owner: Option<String>,
    pub project: Option<String>,
    pub sample: Option<SampleInfo>,
    pub scan_id: Option<u32>,
    pub time: JsonNum,
    pub uid: String,
}

/// Mathematical model of a [`Start`].
pub struct SpecStart {
    pub data_groups: Seq<Seq<char>>,
    pub data_session: Option<Seq<char>>,
    pub group: Option<Seq<char>>,
    pub owner: Option<Seq<char>>,
    pub project: Option<Seq<char>>,
    pub sample: Option<SpecSampleInfo>,
    pub scan_id: Option<u32>,
    pub time: SpecJsonNum,
    pub uid: Seq<char>,
}

impl View for Start {
    type V = SpecStart;

    open spec fn view(&self) -> SpecStart {
        SpecStart {
            data_groups: self.data_groups.deep_view(),
            data_session: self.data_session.deep_view(),
            group: self.group.deep_view(),
            owner: self.owner.deep_view(),
            project: self.project.deep_view(),
            sample: self.sample.deep_view(),
            scan_id: self.scan_id,
            time: self.time@,
            uid: self.uid@,
        }
    }
}

/// The start record a wire object denotes, if any.
pub open spec fn spec_decode_start(v: SpecJson) -> Option<SpecStart> {
    match v {
        SpecJson::Obj(obj) => if spec_str_arr_or_empty(obj, "data_groups"@) is Some
            && spec_opt_str(obj, "data_session"@) is Some && spec_opt_str(obj, "group"@) is Some
            && spec_opt_str(obj, "owner"@) is Some && spec_opt_str(obj, "project"@) is Some
            && spec_opt_sample(obj) is Some && spec_opt_u32(obj, "scan_id"@) is Some
            && spec_req_num(obj, "time"@) is Some && spec_req_str(obj, "uid"@) is Some {
            Some(
                SpecStart {
                    data_groups: spec_str_arr_or_empty(obj, "data_groups"@)->Some_0,
                    data_session: spec_opt_str(obj, "data_session"@)->Some_0,
                    group: spec_opt_str(obj, "group"@)->Some_0,
                    owner: spec_opt_str(obj, "owner"@)->Some_0,
                    project: spec_opt_str(obj, "project"@)->Some_0,
                    sample: spec_opt_sample(obj)->Some_0,
                    scan_id: spec_opt_u32(obj, "scan_id"@)->Some_0,
                    time: spec_req_num(obj, "time"@)->Some_0,
                    uid: spec_req_str(obj, "uid"@)->Some_0,
                },
            )
        } else {
            None
        },
        _ => None,
    }
}

/// Reads a start record, as [`spec_decode_start`] describes.
pub fn decode_start(v: &JsonValue) -> (r: Option<Start>)
    ensures
        match r {
            Some(d) => spec_decode_start(v@) == Some(d@),
            None => spec_decode_start(v@) is None,
        },
{
    match v {
        JsonValue::Obj(fields) => {
            let data_groups = match get_str_arr_or_empty(fields, "data_groups") {
                Some(g) => g,
                None => {
                    return None;
                },
            };
            let data_session = match get_opt_str(fields, "data_session") {
                Some(s) => s,
                None => {
                    return None;
                },
            };
            let group = match get_opt_str(fields, "group") {
                Some(s) => s,
                None => {
                    return None;
                },
            };
            let owner = match get_opt_str(fields, "owner") {
                Some(s) => s,
                None => {
                    return None;
                },
            };
            let project = match get_opt_str(fields, "project") {
                Some(s) => s,
                None => {
                    return None;
                },
            };
            let sample = match obj_lookup(fields, "sample") {
                None => None,
                Some(w) => match w {
                    JsonValue::Null => None,
                    _ => match decode_sample(w) {
                        Some(si) => Some(si),
                        None => {
                            return None;
                        },
                    },
                },
            };
            let scan_id = match get_opt_u32(fields, "scan_id") {
                Some(n) => n,
                None => {
                    return None;
                },
            };
            let time = match get_req_num(fields, "time") {
                Some(t) => t,
                None => {
                    return None;
                },
            };
            let uid = match get_req_str(fields, "uid") {
                Some(s) => s,
                None => {
                    return None;
                },
            };
            Some(
                Start {
                    data_groups,
                    data_session,
                    group,
                    owner,
                    project,
                    sample,
                    scan_id,
                    time,
                    uid,
                },
            )
        },
        _ => None,
    }
}

/// One recorded sample: the readings of every data key at one step.
#[derive(Debug, PartialEq, Eq)]
pub struct Event {
    pub uid: String,
    pub time: JsonNum,
    pub data: JsonValue,
    pub timestamps: JsonValue,
    pub seq_num: u32,
    pub descriptor: String,
}

/// Mathematical model of an [`Event`].
pub struct SpecEvent {
    pub uid: Seq<char>,
    pub time: SpecJsonNum,
    pub data: SpecJson,
    pub timestamps: SpecJson,
    pub seq_num: u32,
    pub descriptor: Seq<char>,
}

impl View for Event {
    type V = SpecEvent;

    open spec fn view(&self) -> SpecEvent {
        SpecEvent {
            uid: self.uid@,
            time: self.time@,
            data: self.data@,
            timestamps: self.timestamps@,
            seq_num: self.seq_num,
            descriptor: self.descriptor@,
        }
    }
}

/// The event record a wire object denotes, if any.
pub open spec fn spec_decode_event(v: SpecJson) -> Option<SpecEvent> {
    match v {
        SpecJson::Obj(obj) => if spec_req_str(obj, "uid"@) is Some && spec_req_num(
            obj,
            "time"@,
        ) is Some && spec_req_val(obj, "data"@) is Some && spec_req_val(obj, "timestamps"@) is Some
            && spec_req_u32(obj, "seq_num"@) is Some && spec_req_str(obj, "descriptor"@) is Some {
            Some(
                SpecEvent {
                    uid: spec_req_str(obj, "uid"@)->Some_0,
                    time: spec_req_num(obj, "time"@)->Some_0,
                    data: spec_req_val(obj, "data"@)->Some_0,
                    timestamps: spec_req_val(obj, "timestamps"@)->Some_0,
                    seq_num: spec_req_u32(obj, "seq_num"@)->Some_0,
                    descriptor: spec_req_str(obj, "descriptor"@)->Some_0,
                },
            )
        } else {
            None
        },
        _ => None,
    }
}

/// Reads an event record, as [`spec_decode_event`] describes.
pub fn decode_event(v: &JsonValue) -> (r: Option<Event>)
    ensures
        match r {
            Some(d) => spec_decode_event(v@) == Some(d@),
            None => spec_decode_event(v@) is None,
        },
{
    match v {
        JsonValue::Obj(fields) => {
            let uid = match get_req_str(fields, "uid") {
                Some(s) => s,
                None => {
                    return None;
                },
            };
            let time = match get_req_num(fields, "time") {
                Some(t) => t,
                None => {
                    return None;
                },
            };
            let data = match get_req_val(fields, "data") {
                Some(d) => d,
                None => {
                    return None;
                },
            };
            let timestamps = match get_req_val(fields, "timestamps") {
                Some(t) => t,
                None => {
                    return None;
                },
            };
            let seq_num = match get_req_u32(fields, "seq_num") {
                Some(n) => n,
                None => {
                    return None;
                },
            };
            let descriptor = match get_req_str(fields, "descriptor") {
                Some(s) => s,
                None => {
                    return None;
                },
            };
            Some(Event { uid, time, data, timestamps, seq_num, descriptor })
        },
        _ => None,
    }
}

/// A pointer from one datum identifier to values inside a resource.
#[derive(Debug, PartialEq, Eq)]
pub struct Datum {
    pub datum_id: String,
    pub datum_kwargs: Vec<(String, JsonValue)>,
    pub resource: String,
}

/// Mathematical model of a [`Datum`].
pub struct SpecDatum {
    pub datum_id: Seq<char>,
    pub datum_kwargs: Seq<(Seq<char>, SpecJson)>,
    pub resource: Seq<char>,
}

impl View for Datum {
    type V = SpecDatum;

    open spec fn view(&self) -> SpecDatum {
        SpecDatum {
            datum_id: self.datum_id@,
            datum_kwargs: json_entries_view(self.datum_kwargs@),
            resource: self.resource@,
        }
    }
}

/// The datum record a wire object denotes, if any.
pub open spec fn spec_decode_datum(v: SpecJson) -> Option<SpecDatum> {
    match v {
        SpecJson::Obj(obj) => if spec_req_str(obj, "datum_id"@) is Some && spec_req_obj(
            obj,
            "datum_kwargs"@,
        ) is Some && spec_req_str(obj, "resource"@) is Some {
            Some(
                SpecDatum {
                    datum_id: spec_req_str(obj, "datum_id"@)->Some_0,
                    datum_kwargs: spec_req_obj(obj, "datum_kwargs"@)->Some_0,
                    resource: spec_req_str(obj, "resource"@)->Some_0,
                },
            )
        } else {
            None
        },
        _ => None,
    }
}

/// Reads a datum record, as [`spec_decode_datum`] describes.
pub fn decode_datum(v: &JsonValue) -> (r: Option<Datum>)
    ensures
        match r {
            Some(d) => spec_decode_datum(v@) == Some(d@),
            None => spec_decode_datum(v@) is None,
        },
{
    match v {
        JsonValue::Obj(fields) => {
            let datum_id = match get_req_str(fields, "datum_id") {
                Some(s) => s,
                None => {
                    return None;
                },
            };
            let datum_kwargs = match get_req_obj(fields, "datum_kwargs") {
                Some(k) => k,
                None => {
                    return None;
                },
            };
            let resource = match get_req_str(fields, "resource") {
                Some(s) => s,
                None => {
                    return None;
                },
            };
            Some(Datum { datum_id, datum_kwargs, resource })
        },
        _ => None,
    }
}

/// A handle to externally stored data.
#[derive(Debug, PartialEq, Eq)]
pub struct Resource {
    pub resource_kwargs: Vec<(String, JsonValue)>,
    pub resource_path: String,
    pub root: String,
    pub spec_label: String,
    pub uid: String,
    pub path_semantics: Option<PathSemantics>,
    pub run_start: Option<String>,
}

/// Mathematical model of a [`Resource`].
pub struct SpecResource {
    pub resource_kwargs: Seq<(Seq<char>, SpecJson)>,
    pub resource_path: Seq<char>,
    pub root: Seq<char>,
    pub spec_label: Seq<char>,
    pub uid: Seq<char>,
    pub path_semantics: Option<PathSemantics>,
    pub run_start: Option<Seq<char>>,
}

impl View for Resource {
    type V = SpecResource;

    open spec fn view(&self) -> SpecResource {
        SpecResource {
            resource_kwargs: json_entries_view(self.resource_kwargs@),
            resource_path: self.resource_path@,
            root: self.root@,
            spec_label: self.spec_label@,
            uid: self.uid@,
            path_semantics: self.path_semantics,
            run_start: self.run_start.deep_view(),
        }
    }
}

/// An optional path-semantics field: absent or `null` means none; any other
/// value must be a known name.
pub open spec fn spec_opt_path_semantics(obj: Seq<(Seq<char>, SpecJson)>) -> Option<
    Option<PathSemantics>,
> {
    match spec_lookup(obj, "path_semantics"@) {
        None => Some(None),
        Some(SpecJson::Null) => Some(None),
        Some(SpecJson::Str(s)) => match spec_path_semantics(s) {
            Some(p) => Some(Some(p)),
            None => None,
        },
        Some(_) => None,
    }
}

/// The resource record a wire object denotes, if any. The wire field `spec`
/// (the resource's format label) is carried as `spec_label`.
pub open spec fn spec_decode_resource(v: SpecJson) -> Option<SpecResource> {
    match v {
        SpecJson::Obj(obj) => if spec_req_obj(obj, "resource_kwargs"@) is Some && spec_req_str(
            obj,
            "resource_path"@,
        ) is Some && spec_req_str(obj, "root"@) is Some && spec_req_str(obj, "spec"@) is Some
            && spec_req_str(obj, "uid"@) is Some && spec_opt_path_semantics(obj) is Some
            && spec_opt_str(obj, "run_start"@) is Some {
            Some(
                SpecResource {
                    resource_kwargs: spec_req_obj(obj, "resource_kwargs"@)->Some_0,
                    resource_path: spec_req_str(obj, "resource_path"@)->Some_0,
                    root: spec_req_str(obj, "root"@)->Some_0,
                    spec_label: spec_req_str(obj, "spec"@)->Some_0,
                    uid: spec_req_str(obj, "uid"@)->Some_0,
                    path_semantics: spec_opt_path_semantics(obj)->Some_0,
                    run_start: spec_opt_str(obj, "run_start"@)->Some_0,
                },
            )
        } else {
            None
        },
        _ => None,
    }
}

/// Reads a resource record, as [`spec_decode_resource`] describes.
pub fn decode_resource(v: &JsonValue) -> (r: Option<Resource>)
    ensures
        match r {
            Some(d) => spec_decode_resource(v@) == Some(d@),
            None => spec_decode_resource(v@) is None,
        },
{
    match v {
        JsonValue::Obj(fields) => {
            let resource_kwargs = match get_req_obj(fields, "resource_kwargs") {
                Some(k) => k,
                None => {
                    return None;
                },
            };
            let resource_path = match get_req_str(fields, "resource_path") {
                Some(s) => s,
                None => {
                    return None;
                },
            };
            let root = match get_req_str(fields, "root") {
                Some(s) => s,
                None => {
                    return None;
                },
            };
            let spec_label = match get_req_str(fields, "spec") {
                Some(s) => s,
                None => {
                    return None;
                },
            };
            let uid = match get_req_str(fields, "uid") {
                Some(s) => s,
                None => {
                    return None;
                },
            };
            let path_semantics = match obj_lookup(fields, "path_semantics") {
                None => None,
                Some(w) => match w {
                    JsonValue::Null => None,
                    JsonValue::Str(s) => match parse_path_semantics(s.as_str()) {
                        Some(p) => Some(p),
                        None => {
                            return None;
                        },
                    },
                    _ => {
                        return None;
                    },
                },
            };
            let run_start = match get_opt_str(fields, "run_start") {
                Some(s) => s,
                None => {
                    return None;
                },
            };
            Some(
                Resource {
                    resource_kwargs,
                    resource_path,
                    root,
                    spec_label,
                    uid,
                    path_semantics,
                    run_start,
                },
            )
        },
        _ => None,
    }
}

/// A handle to a stream of externally stored data.
#[derive(Debug, PartialEq, Eq)]
pub struct StreamResource {
    pub data_key: String,
    pub mimetype: String,
    pub parameters: Vec<(String, JsonValue)>,
    pub run_start: Option<String>,
    pub uid: String,
    pub uri: String,
}

/// Mathematical model of a [`StreamResource`].
pub struct SpecStreamResource {
    pub data_key: Seq<char>,
    pub mimetype: Seq<char>,
    pub parameters: Seq<(Seq<char>, SpecJson)>,
    pub run_start: Option<Seq<char>>,
    pub uid: Seq<char>,
    pub uri: Seq<char>,
}

impl View for StreamResource {
    type V = SpecStreamResource;

    open spec fn view(&self) -> SpecStreamResource {
        SpecStreamResource {
            data_key: self.data_key@,
            mimetype: self.mimetype@,
            parameters: json_entries_view(self.parameters@),
            run_start: self.run_start.deep_view(),
            uid: self.uid@,
            uri: self.uri@,
        }
    }
}

/// The stream-resource record a wire object denotes, if any.
pub open spec fn spec_decode_stream_resource(v: SpecJson) -> Option<SpecStreamResource> {
    match v {
        SpecJson::Obj(obj) => if spec_req_str(obj, "data_key"@) is Some && spec_req_str(
            obj,
            "mimetype"@,
        ) is Some && spec_req_obj(obj, "parameters"@) is Some && spec_opt_str(
            obj,
            "run_start"@,
        ) is Some && spec_req_str(obj, "uid"@) is Some && spec_req_str(obj, "uri"@) is Some {
            Some(
                SpecStreamResource {
                    data_key: spec_req_str(obj, "data_key"@)->Some_0,
                    mimetype: spec_req_str(obj, "mimetype"@)->Some_0,
                    parameters: spec_req_obj(obj, "parameters"@)->Some_0,
                    run_start: spec_opt_str(obj, "run_start"@)->Some_0,
                    uid: spec_req_str(obj, "uid"@)->Some_0,
                    uri: spec_req_str(obj, "uri"@)->Some_0,
                },
            )
        } else {
            None
        },
        _ => None,
    }
}

/// Reads a stream-resource record, as [`spec_decode_stream_resource`]
/// describes.
pub fn decode_stream_resource(v: &JsonValue) -> (r: Option<StreamResource>)
    ensures
        match r {
            Some(d) => spec_decode_stream_resource(v@) == Some(d@),
            None => spec_decode_stream_resource(v@) is None,
        },
{
    match v {
        JsonValue::Obj(fields) => {
            let data_key = match get_req_str(fields, "data_key") {
                Some(s) => s,
                None => {
                    return None;
                },
            };
            let mimetype = match get_req_str(fields, "mimetype") {
                Some(s) => s,
                None => {
                    return None;
                },
            };
            let parameters = match get_req_obj(fields, "parameters") {
                Some(p) => p,
                None => {
                    return None;
                },
            };
            let run_start = match get_opt_str(fields, "run_start") {
                Some(s) => s,
                None => {
                    return None;
                },
            };
            let uid = match get_req_str(fields, "uid") {
                Some(s) => s,
                None => {
                    return None;
                },
            };
            let uri = match get_req_str(fields, "uri") {
                Some(s) => s,
                None => {
                    return None;
                },
            };
            Some(StreamResource { data_key, mimetype, parameters, run_start, uid, uri })
        },
        _ => None,
    }
}

/// A slice of samples inside a data stream.
#[derive(Debug, PartialEq, Eq)]
pub struct StreamDatum {
    pub descriptor: String,
    pub indices: StreamRange,
    pub seq_nums: StreamRange,
    pub stream_resource: String,
    pub uid: String,
}

/// Mathematical model of a [`StreamDatum`].
pub struct SpecStreamDatum {
    pub descriptor: Seq<char>,
    pub indices: StreamRange,
    pub seq_nums: StreamRange,
    pub stream_resource: Seq<char>,
    pub uid: Seq<char>,
}

impl View for StreamDatum {
    type V = SpecStreamDatum;

    open spec fn view(&self) -> SpecStreamDatum {
        SpecStreamDatum {
            descriptor: self.descriptor@,
            indices: self.indices,
            seq_nums: self.seq_nums,
            stream_resource: self.stream_resource@,
            uid: self.uid@,
        }
    }
}

/// A required stream-range field.
pub open spec fn spec_req_stream_range(obj: Seq<(Seq<char>, SpecJson)>, key: Seq<char>) -> Option<
    StreamRange,
> {
    match spec_lookup(obj, key) {
        Some(w) => spec_decode_stream_range(w),
        None => None,
    }
}

/// The stream-datum record a wire object denotes, if any.
pub open spec fn spec_decode_stream_datum(v: SpecJson) -> Option<SpecStreamDatum> {
    match v {
        SpecJson::Obj(obj) => if spec_req_str(obj, "descriptor"@) is Some && spec_req_stream_range(
            obj,
            "indices"@,
        ) is Some && spec_req_stream_range(obj, "seq_nums"@) is Some && spec_req_str(
            obj,
            "stream_resource"@,
        ) is Some && spec_req_str(obj, "uid"@) is Some {
            Some(
                SpecStreamDatum {
                    descriptor: spec_req_str(obj, "descriptor"@)->Some_0,
                    indices: spec_req_stream_range(obj, "indices"@)->Some_0,
                    seq_nums: spec_req_stream_range(obj, "seq_nums"@)->Some_0,
                    stream_resource: spec_req_str(obj, "stream_resource"@)->Some_0,
                    uid: spec_req_str(obj, "uid"@)->Some_0,
                },
            )
        } else {
            None
        },
        _ => None,
    }
}

/// Reads a stream-datum record, as [`spec_decode_stream_datum`] describes.
pub fn decode_stream_datum(v: &JsonValue) -> (r: Option<StreamDatum>)
    ensures
        match r {
            Some(d) => spec_decode_stream_datum(v@) == Some(d@),
            None => spec_decode_stream_datum(v@) is None,
        },
{
    match v {
        JsonValue::Obj(fields) => {
            let descriptor = match get_req_str(fields, "descriptor") {
                Some(s) => s,
                None => {
                    return None;
                },
            };
            let indices = match obj_lookup(fields, "indices") {
                Some(w) => match decode_stream_range(w) {
                    Some(sr) => sr,
                    None => {
                        return None;
                    },
                },
                None => {
                    return None;
                },
            };
            let seq_nums = match obj_lookup(fields, "seq_nums") {
                Some(w) => match decode_stream_range(w) {
                    Some(sr) => sr,
                    None => {
                        return None;
                    },
                },
                None => {
                    return None;
                },
            };
            let stream_resource = match get_req_str(fields, "stream_resource") {
                Some(s) => s,
                None => {
                    return None;
                },
            };
            let uid = match get_req_str(fields, "uid") {
                Some(s) => s,
                None => {
                    return None;
                },
            };
            Some(StreamDatum { descriptor, indices, seq_nums, stream_resource, uid })
        },
        _ => None,
    }
}

/// A low/high pair bounding a reading.
#[derive(Debug, PartialEq, Eq)]
pub struct LimitsRange {
    pub high: Option<JsonNum>,
    pub low: Option<JsonNum>,
}

/// Mathematical model of a [`LimitsRange`].
pub struct SpecLimitsRange {
    pub high: Option<SpecJsonNum>,
    pub low: Option<SpecJsonNum>,
}

impl View for LimitsRange {
    type V = SpecLimitsRange;

    open spec fn view(&self) -> SpecLimitsRange {
        SpecLimitsRange { high: self.high.deep_view(), low: self.low.deep_view() }
    }
}

impl DeepView for LimitsRange {
    type V = SpecLimitsRange;

    open spec fn deep_view(&self) -> SpecLimitsRange {
        self.view()
    }
}

/// The limits range a wire value denotes, if any.
pub open spec fn spec_decode_limits_range(v: SpecJson) -> Option<SpecLimitsRange> {
    match v {
        SpecJson::Obj(obj) => if spec_opt_num(obj, "high"@) is Some && spec_opt_num(
            obj,
            "low"@,
        ) is Some {
            Some(
                SpecLimitsRange {
                    high: spec_opt_num(obj, "high"@)->Some_0,
                    low: spec_opt_num(obj, "low"@)->Some_0,
                },
            )
        } else {
            None
        },
        _ => None,
    }
}

/// Reads a limits range, as [`spec_decode_limits_range`] describes.
pub fn decode_limits_range(v: &JsonValue) -> (r: Option<LimitsRange>)
    ensures
        match r {
            Some(d) => spec_decode_limits_range(v@) == Some(d@),
            None => spec_decode_limits_range(v@) is None,
        },
{
    match v {
        JsonValue::Obj(fields) => {
            let high = match get_opt_num(fields, "high") {
                Some(h) => h,
                None => {
                    return None;
                },
            };
            let low = match get_opt_num(fields, "low") {
                Some(l) => l,
                None => {
                    return None;
                },
            };
            Some(LimitsRange { high, low })
        },
        _ => None,
    }
}

/// A rate-of-change bound on a reading.
#[derive(Debug, PartialEq, Eq)]
pub struct RdsRange {
    pub time_difference: JsonNum,
    pub value_difference: JsonNum,
}

/// Mathematical model of an [`RdsRange`].
pub struct SpecRdsRange {
    pub time_difference: SpecJsonNum,
    pub value_difference: SpecJsonNum,
}

impl View for RdsRange {
    type V = SpecRdsRange;

    open spec fn view(&self) -> SpecRdsRange {
        SpecRdsRange {
            time_difference: self.time_difference@,
            value_difference: self.value_difference@,
        }
    }
}

impl DeepView for RdsRange {
    type V = SpecRdsRange;

    open spec fn deep_view(&self) -> SpecRdsRange {
        self.view()
    }
}

/// The rate-of-change bound a wire value denotes, if any.
pub open spec fn spec_decode_rds_range(v: SpecJson) -> Option<SpecRdsRange> {
    match v {
        SpecJson::Obj(obj) => if spec_req_num(obj, "time_difference"@) is Some && spec_req_num(
            obj,
            "value_difference"@,
        ) is Some {
            Some(
                SpecRdsRange {
                    time_difference: spec_req_num(obj, "time_difference"@)->Some_0,
                    value_difference: spec_req_num(obj, "value_difference"@)->Some_0,
                },
            )
        } else {
            None
        },
        _ => None,
    }
}

/// Reads a rate-of-change bound, as [`spec_decode_rds_range`] describes.
pub fn decode_rds_range(v: &JsonValue) -> (r: Option<RdsRange>)
    ensures
        match r {
            Some(d) => spec_decode_rds_range(v@) == Some(d@),
            None => spec_decode_rds_range(v@) is None,
        },
{
    match v {
        JsonValue::Obj(fields) => {
            let time_difference = match get_req_num(fields, "time_difference") {
                Some(t) => t,
                None => {
                    return None;
                },
            };
            let value_difference = match get_req_num(fields, "value_difference") {
                Some(w) => w,
                None => {
                    return None;
                },
            };
            Some(RdsRange { time_difference, value_difference })
        },
        _ => None,
    }
}

/// The alarm, control, display and warning bounds of a data key.
#[derive(Debug, PartialEq, Eq)]
pub struct Limits {
    pub alarm: Option<LimitsRange>,
    pub control: Option<LimitsRange>,
    pub display: Option<LimitsRange>,
    pub hysteresis: Option<JsonNum>,
    pub rds: Option<RdsRange>,
    pub warning: Option<LimitsRange>,
}

/// Mathematical model of a [`Limits`].
pub struct SpecLimits {
    pub alarm: Option<SpecLimitsRange>,
    pub control: Option<SpecLimitsRange>,
    pub display: Option<SpecLimitsRange>,
    pub hysteresis: Option<SpecJsonNum>,
    pub rds: Option<SpecRdsRange>,
    pub warning: Option<SpecLimitsRange>,
}

impl View for Limits {
    type V = SpecLimits;

    open spec fn view(&self) -> SpecLimits {
        SpecLimits {
            alarm: self.alarm.deep_view(),
            control: self.control.deep_view(),
            display: self.display.deep_view(),
            hysteresis: self.hysteresis.deep_view(),
            rds: self.rds.deep_view(),
            warning: self.warning.deep_view(),
        }
    }
}

impl DeepView for Limits {
    type V = SpecLimits;

    open spec fn deep_view(&self) -> SpecLimits {
        self.view()
    }
}

/// An optional limits-range field: absent or `null` means none; any other
/// value must denote a limits range.
pub open spec fn spec_opt_limits_range(obj: Seq<(Seq<char>, SpecJson)>, key: Seq<char>) -> Option<
    Option<SpecLimitsRange>,
> {
    match spec_lookup(obj, key) {
        None => Some(None),
        Some(SpecJson::Null) => Some(None),
        Some(w) => match spec_decode_limits_range(w) {
            Some(lr) => Some(Some(lr)),
            None => None,
        },
    }
}

/// Extracts an optional limits range, as [`spec_opt_limits_range`]
/// describes.
pub fn get_opt_limits_range(fields: &Vec<(String, JsonValue)>, key: &str) -> (r: Option<
    Option<LimitsRange>,
>)
    ensures
        match r {
            Some(None) => spec_opt_limits_range(json_entries_view(fields@), key@) == Some(
                None::<SpecLimitsRange>,
            ),
            Some(Some(lr)) => spec_opt_limits_range(json_entries_view(fields@), key@) == Some(
                Some(lr@),
            ),
            None => spec_opt_limits_range(json_entries_view(fields@), key@) is None,
        },
{
    match obj_lookup(fields, key) {
        None => Some(None),
        Some(w) => match w {
            JsonValue::Null => Some(None),
            _ => match decode_limits_range(w) {
                Some(lr) => Some(Some(lr)),
                None => None,
            },
        },
    }
}

/// The limits a wire value denotes, if any.
pub open spec fn spec_decode_limits(v: SpecJson) -> Option<SpecLimits> {
    match v {
        SpecJson::Obj(obj) => if spec_opt_limits_range(obj, "alarm"@) is Some
            && spec_opt_limits_range(obj, "control"@) is Some && spec_opt_limits_range(
            obj,
            "display"@,
        ) is Some && spec_opt_num(obj, "hysteresis"@) is Some && (match spec_lookup(
            obj,
            "rds"@,
        ) {
            None => true,
            Some(SpecJson::Null) => true,
            Some(w) => spec_decode_rds_range(w) is Some,
        }) && spec_opt_limits_range(obj, "warning"@) is Some {
            Some(
                SpecLimits {
                    alarm: spec_opt_limits_range(obj, "alarm"@)->Some_0,
                    control: spec_opt_limits_range(obj, "control"@)->Some_0,
                    display: spec_opt_limits_range(obj, "display"@)->Some_0,
                    hysteresis: spec_opt_num(obj, "hysteresis"@)->Some_0,
                    rds: match spec_lookup(obj, "rds"@) {
                        None => None,
                        Some(SpecJson::Null) => None,
                        Some(w) => Some(spec_decode_rds_range(w)->Some_0),
                    },
                    warning: spec_opt_limits_range(obj, "warning"@)->Some_0,
                },
            )
        } else {
            None
        },
        _ => None,
    }
}

/// Reads limits, as [`spec_decode_limits`] describes.
pub fn decode_limits(v: &JsonValue) -> (r: Option<Limits>)
    ensures
        match r {
            Some(d) => spec_decode_limits(v@) == Some(d@),
            None => spec_decode_limits(v@) is None,
        },
{
    match v {
        JsonValue::Obj(fields) => {
            let alarm = match get_opt_limits_range(fields, "alarm") {
                Some(a) => a,
                None => {
                    return None;
                },
            };
            let control = match get_opt_limits_range(fields, "control") {
                Some(c) => c,
                None => {
                    return None;
                },
            };
            let display = match get_opt_limits_range(fields, "display") {
                Some(d) => d,
                None => {
                    return None;
                },
            };
            let hysteresis = match get_opt_num(fields, "hysteresis") {
                Some(h) => h,
                None => {
                    return None;
                },
            };
            let rds = match obj_lookup(fields, "rds") {
                None => None,
                Some(w) => match w {
                    JsonValue::Null => None,
                    _ => match decode_rds_range(w) {
                        Some(rr) => Some(rr),
                        None => {
                            return None;
                        },
                    },
                },
            };
            let warning = match get_opt_limits_range(fields, "warning") {
                Some(w) => w,
                None => {
                    return None;
                },
            };
            Some(Limits { alarm, control, display, hysteresis, rds, warning })
        },
        _ => None,
    }
}

/// Whether every element of `items` is `null` or an `i32` number.
pub open spec fn spec_all_opt_i32(items: Seq<SpecJson>) -> bool {
    forall|i: int|
        0 <= i < items.len() ==> ((#[trigger] items[i]) is Null || (items[i] matches SpecJson::Num(
            n,
        ) && spec_num_i32(n) is Some))
}

/// The values of an array of `null`-or-`i32` elements.
pub open spec fn spec_opt_i32_values(items: Seq<SpecJson>) -> Seq<Option<i32>> {
    items.map_values(
        |x: SpecJson|
            if x is Null {
                None
            } else {
                Some(spec_num_i32(x->Num_0)->Some_0)
            },
    )
}

/// Reads an array whose elements are `null` or `i32`; fails on any other
/// element.
pub fn decode_opt_i32_list(items: &Vec<JsonValue>) -> (r: Option<Vec<Option<i32>>>)
    ensures
        match r {
            Some(out) => spec_all_opt_i32(json_seq_view(items@)) && out.deep_view()
                == spec_opt_i32_values(json_seq_view(items@)),
            None => !spec_all_opt_i32(json_seq_view(items@)),
        },
{
    proof {
        lemma_json_seq_view(items@);
    }
    let mut out: Vec<Option<i32>> = Vec::new();
    let mut i: usize = 0;
    while i < items.len()
        invariant
            i <= items@.len(),
            out@.len() == i,
            forall|j: int|
                0 <= j < i ==> (json_view(#[trigger] items@[j]) is Null || (json_view(
                    items@[j],
                ) matches SpecJson::Num(n) && spec_num_i32(n) is Some)),
            forall|j: int|
                0 <= j < i ==> #[trigger] out@[j] == (if json_view(items@[j]) is Null {
                    None
                } else {
                    Some(spec_num_i32(json_view(items@[j])->Num_0)->Some_0)
                }),
        decreases items@.len() - i,
    {
        match &items[i] {
            JsonValue::Null => {
                out.push(None);
            },
            JsonValue::Num(n) => match num_i32(n) {
                Some(value) => {
                    out.push(Some(value));
                },
                None => {
                    proof {
                        lemma_json_seq_view(items@);
                        assert(!spec_all_opt_i32(json_seq_view(items@))) by {
                            assert(json_seq_view(items@)[i as int] == json_view(items@[i as int]));
                        }
                    }
                    return None;
                },
            },
            _ => {
                proof {
                    lemma_json_seq_view(items@);
                    assert(!spec_all_opt_i32(json_seq_view(items@))) by {
                        assert(json_seq_view(items@)[i as int] == json_view(items@[i as int]));
                    }
                }
                return None;
            },
        }
        i = i + 1;
    }
    proof {
        lemma_json_seq_view(items@);
        let m = json_seq_view(items@);
        assert forall|j: int| 0 <= j < m.len() implies ((#[trigger] m[j]) is Null || (
        m[j] matches SpecJson::Num(n) && spec_num_i32(n) is Some)) by {
            assert(m[j] == json_view(items@[j]));
        }
        assert(out.deep_view() =~= spec_opt_i32_values(m));
    }
    Some(out)
}

/// The typing and shape metadata of one recorded field.
#[derive(Debug, PartialEq, Eq)]
pub struct DataKey {
    pub choices: Vec<String>,
    pub dims: Vec<String>,
    pub dtype: DataType,
    pub dtype_numpy: Option<JsonValue>,
    pub external: Option<String>,
    pub limits: Option<Limits>,
    pub object_name: Option<String>,
    pub precision: Option<i32>,
    pub shape: Vec<Option<i32>>,
    pub source: String,
    pub units: Option<String>,
}

/// Mathematical model of a [`DataKey`].
pub struct SpecDataKey {
    pub choices: Seq<Seq<char>>,
    pub dims: Seq<Seq<char>>,
    pub dtype: DataType,
    pub dtype_numpy: Option<SpecJson>,
    pub external: Option<Seq<char>>,
    pub limits: Option<SpecLimits>,
    pub object_name: Option<Seq<char>>,
    pub precision: Option<i32>,
    pub shape: Seq<Option<i32>>,
    pub source: Seq<char>,
    pub units: Option<Seq<char>>,
}

impl View for DataKey {
    type V = SpecDataKey;

    open spec fn view(&self) -> SpecDataKey {
        SpecDataKey {
            choices: self.choices.deep_view(),
            dims: self.dims.deep_view(),
            dtype: self.dtype,
            dtype_numpy: self.dtype_numpy.deep_view(),
            external: self.external.deep_view(),
            limits: self.limits.deep_view(),
            object_name: self.object_name.deep_view(),
            precision: self.precision,
            shape: self.shape.deep_view(),
            source: self.source@,
            units: self.units.deep_view(),
        }
    }
}

impl DeepView for DataKey {
    type V = SpecDataKey;

    open spec fn deep_view(&self) -> SpecDataKey {
        self.view()
    }
}

/// The data key a wire value denotes, if any.
pub open spec fn spec_decode_data_key(v: SpecJson) -> Option<SpecDataKey> {
    match v {
        SpecJson::Obj(obj) => if spec_str_arr_or_empty(obj, "choices"@) is Some
            && spec_str_arr_or_empty(obj, "dims"@) is Some && (spec_req_str(
            obj,
            "dtype"@,
        ) matches Some(dn) && spec_data_type(dn) is Some) && spec_opt_val(
            obj,
            "dtype_numpy"@,
        ) is Some && spec_opt_str(obj, "external"@) is Some && (match spec_lookup(obj, "limits"@) {
            None => true,
            Some(SpecJson::Null) => true,
            Some(w) => spec_decode_limits(w) is Some,
        }) && spec_opt_str(obj, "object_name"@) is Some && spec_opt_i32(obj, "precision"@) is Some
            && (spec_req_arr(obj, "shape"@) matches Some(sh) && spec_all_opt_i32(sh))
            && spec_req_str(obj, "source"@) is Some && spec_opt_str(obj, "units"@) is Some {
            Some(
                SpecDataKey {
                    choices: spec_str_arr_or_empty(obj, "choices"@)->Some_0,
                    dims: spec_str_arr_or_empty(obj, "dims"@)->Some_0,
                    dtype: spec_data_type(spec_req_str(obj, "dtype"@)->Some_0)->Some_0,
                    dtype_numpy: spec_opt_val(obj, "dtype_numpy"@)->Some_0,
                    external: spec_opt_str(obj, "external"@)->Some_0,
                    limits: match spec_lookup(obj, "limits"@) {
                        None => None,
                        Some(SpecJson::Null) => None,
                        Some(w) => Some(spec_decode_limits(w)->Some_0),
                    },
                    object_name: spec_opt_str(obj, "object_name"@)->Some_0,
                    precision: spec_opt_i32(obj, "precision"@)->Some_0,
                    shape: spec_opt_i32_values(spec_req_arr(obj, "shape"@)->Some_0),
                    source: spec_req_str(obj, "source"@)->Some_0,
                    units: spec_opt_str(obj, "units"@)->Some_0,
                },
            )
        } else {
            None
        },
        _ => None,
    }
}

/// Reads a data key, as [`spec_decode_data_key`] describes.
pub fn decode_data_key(v: &JsonValue) -> (r: Option<DataKey>)
    ensures
        match r {
            Some(d) => spec_decode_data_key(v@) == Some(d@),
            None => spec_decode_data_key(v@) is None,
        },
{
    match v {
        JsonValue::Obj(fields) => {
            let choices = match get_str_arr_or_empty(fields, "choices") {
                Some(c) => c,
                None => {
                    return None;
                },
            };
            let dims = match get_str_arr_or_empty(fields, "dims") {
                Some(d) => d,
                None => {
                    return None;
                },
            };
            let dn = match get_req_str(fields, "dtype") {
                Some(s) => s,
                None => {
                    return None;
                },
            };
            let dtype = match parse_data_type(dn.as_str()) {
                Some(t) => t,
                None => {
                    return None;
                },
            };
            let dtype_numpy = match get_opt_val(fields, "dtype_numpy") {
                Some(w) => w,
                None => {
                    return None;
                },
            };
            let external = match get_opt_str(fields, "external") {
                Some(e) => e,
                None => {
                    return None;
                },
            };
            let limits = match obj_lookup(fields, "limits") {
                None => None,
                Some(w) => match w {
                    JsonValue::Null => None,
                    _ => match decode_limits(w) {
                        Some(l) => Some(l),
                        None => {
                            return None;
                        },
                    },
                },
            };
            let object_name = match get_opt_str(fields, "object_name") {
                Some(o) => o,
                None => {
                    return None;
                },
            };
            let precision = match get_opt_i32(fields, "precision") {
                Some(p) => p,
                None => {
                    return None;
                },
            };
            let shape_items = match obj_lookup(fields, "shape") {
                Some(JsonValue::Arr(items)) => items,
                _ => {
                    return None;
                },
            };
            let shape = match decode_opt_i32_list(shape_items) {
                Some(s) => s,
                None => {
                    return None;
                },
            };
            let source = match get_req_str(fields, "source") {
                Some(s) => s,
                None => {
                    return None;
                },
            };
            let units = match get_opt_str(fields, "units") {
                Some(u) => u,
                None => {
                    return None;
                },
            };
            Some(
                DataKey {
                    choices,
                    dims,
                    dtype,
                    dtype_numpy,
                    external,
                    limits,
                    object_name,
                    precision,
                    shape,
                    source,
                    units,
                },
            )
        },
        _ => None,
    }
}

/// Whether every field of `fields` denotes a data key.
pub open spec fn spec_all_values_data_keys(fields: Seq<(Seq<char>, SpecJson)>) -> bool {
    forall|i: int| 0 <= i < fields.len() ==> spec_decode_data_key(#[trigger] fields[i].1) is Some
}

/// The named data keys of a field list of data keys.
pub open spec fn spec_data_key_entries(fields: Seq<(Seq<char>, SpecJson)>) -> Seq<
    (Seq<char>, SpecDataKey),
> {
    fields.map_values(|p: (Seq<char>, SpecJson)| (p.0, spec_decode_data_key(p.1)->Some_0))
}

/// Reads named data keys; fails where a value does not denote one.
pub fn decode_data_key_entries(fields: &Vec<(String, JsonValue)>) -> (r: Option<
    Vec<(String, DataKey)>,
>)
    ensures
        match r {
            Some(out) => spec_all_values_data_keys(json_entries_view(fields@)) && out.deep_view()
                == spec_data_key_entries(json_entries_view(fields@)),
            None => !spec_all_values_data_keys(json_entries_view(fields@)),
        },
{
    proof {
        lemma_json_entries_view(fields@);
    }
    let mut out: Vec<(String, DataKey)> = Vec::new();
    let mut i: usize = 0;
    while i < fields.len()
        invariant
            i <= fields@.len(),
            out@.len() == i,
            forall|j: int|
                0 <= j < i ==> spec_decode_data_key(json_view(#[trigger] fields@[j].1)) is Some,
            forall|j: int|
                0 <= j < i ==> #[trigger] out@[j].0@ == fields@[j].0@ && out@[j].1@
                    == spec_decode_data_key(json_view(fields@[j].1))->Some_0,
        decreases fields@.len() - i,
    {
        let pair = &fields[i];
        match decode_data_key(&pair.1) {
            Some(dk) => {
                out.push((pair.0.clone(), dk));
            },
            None => {
                proof {
                    lemma_json_entries_view(fields@);
                    assert(!spec_all_values_data_keys(json_entries_view(fields@))) by {
                        assert(json_entries_view(fields@)[i as int].1 == json_view(
                            fields@[i as int].1,
                        ));
                    }
                }
                return None;
            },
        }
        i = i + 1;
    }
    proof {
        lemma_json_entries_view(fields@);
        let m = json_entries_view(fields@);
        assert forall|j: int| 0 <= j < m.len() implies spec_decode_data_key(
            #[trigger] m[j].1,
        ) is Some by {
            assert(m[j].1 == json_view(fields@[j].1));
        }
        assert(out.deep_view() =~= spec_data_key_entries(m)) by {
            assert forall|j: int|
                0 <= j < m.len() implies out.deep_view()[j] == spec_data_key_entries(m)[j] by {
                assert(m[j] == (fields@[j].0@, json_view(fields@[j].1)));
            }
        }
    }
    Some(out)
}

/// The configured values and typing of one device at descriptor time.
#[derive(Debug, PartialEq, Eq)]
pub struct Configuration {
    pub data: Vec<(String, JsonValue)>,
    pub data_keys: Vec<(String, DataKey)>,
    pub timestamps: Vec<(String, JsonValue)>,
}

/// Mathematical model of a [`Configuration`].
pub struct SpecConfiguration {
    pub data: Seq<(Seq<char>, SpecJson)>,
    pub data_keys: Seq<(Seq<char>, SpecDataKey)>,
    pub timestamps: Seq<(Seq<char>, SpecJson)>,
}

impl View for Configuration {
    type V = SpecConfiguration;

    open spec fn view(&self) -> SpecConfiguration {
        SpecConfiguration {
            data: json_entries_view(self.data@),
            data_keys: self.data_keys.deep_view(),
            timestamps: json_entries_view(self.timestamps@),
        }
    }
}

impl DeepView for Configuration {
    type V = SpecConfiguration;

    open spec fn deep_view(&self) -> SpecConfiguration {
        self.view()
    }
}

/// The configuration a wire value denotes, if any.
pub open spec fn spec_decode_configuration(v: SpecJson) -> Option<SpecConfiguration> {
    match v {
        SpecJson::Obj(obj) => if spec_obj_or_empty(obj, "data"@) is Some && (spec_obj_or_empty(
            obj,
            "data_keys"@,
        ) matches Some(dk) && spec_all_values_data_keys(dk)) && spec_obj_or_empty(
            obj,
            "timestamps"@,
        ) is Some {
            Some(
                SpecConfiguration {
                    data: spec_obj_or_empty(obj, "data"@)->Some_0,
                    data_keys: spec_data_key_entries(spec_obj_or_empty(obj, "data_keys"@)->Some_0),
                    timestamps: spec_obj_or_empty(obj, "timestamps"@)->Some_0,
                },
            )
        } else {
            None
        },
        _ => None,
    }
}

/// Reads a configuration, as [`spec_decode_configuration`] describes.
pub fn decode_configuration(v: &JsonValue) -> (r: Option<Configuration>)
    ensures
        match r {
            Some(d) => spec_decode_configuration(v@) == Some(d@),
            None => spec_decode_configuration(v@) is None,
        },
{
    match v {
        JsonValue::Obj(fields) => {
            let data = match get_obj_or_empty(fields, "data") {
                Some(d) => d,
                None => {
                    return None;
                },
            };
            let dk_fields = match get_obj_or_empty(fields, "data_keys") {
                Some(d) => d,
                None => {
                    return None;
                },
            };
            let data_keys = match decode_data_key_entries(&dk_fields) {
                Some(d) => d,
                None => {
                    return None;
                },
            };
            let timestamps = match get_obj_or_empty(fields, "timestamps") {
                Some(t) => t,
                None => {
                    return None;
                },
            };
            Some(Configuration { data, data_keys, timestamps })
        },
        _ => None,
    }
}

/// Whether every field of `fields` denotes a configuration.
pub open spec fn spec_all_values_configurations(fields: Seq<(Seq<char>, SpecJson)>) -> bool {
    forall|i: int|
        0 <= i < fields.len() ==> spec_decode_configuration(#[trigger] fields[i].1) is Some
}

/// The named configurations of a field list of configurations.
pub open spec fn spec_configuration_entries(fields: Seq<(Seq<char>, SpecJson)>) -> Seq<
    (Seq<char>, SpecConfiguration),
> {
    fields.map_values(|p: (Seq<char>, SpecJson)| (p.0, spec_decode_configuration(p.1)->Some_0))
}

/// Reads named configurations; fails where a value does not denote one.
pub fn decode_configuration_entries(fields: &Vec<(String, JsonValue)>) -> (r: Option<
    Vec<(String, Configuration)>,
>)
    ensures
        match r {
            Some(out) => spec_all_values_configurations(json_entries_view(fields@))
                && out.deep_view() == spec_configuration_entries(json_entries_view(fields@)),
            None => !spec_all_values_configurations(json_entries_view(fields@)),
        },
{
    proof {
        lemma_json_entries_view(fields@);
    }
    let mut out: Vec<(String, Configuration)> = Vec::new();
    let mut i: usize = 0;
    while i < fields.len()
        invariant
            i <= fields@.len(),
            out@.len() == i,
            forall|j: int|
                0 <= j < i ==> spec_decode_configuration(
                    json_view(#[trigger] fields@[j].1),
                ) is Some,
            forall|j: int|
                0 <= j < i ==> #[trigger] out@[j].0@ == fields@[j].0@ && out@[j].1@
                    == spec_decode_configuration(json_view(fields@[j].1))->Some_0,
        decreases fields@.len() - i,
    {
        let pair = &fields[i];
        match decode_configuration(&pair.1) {
            Some(c) => {
                out.push((pair.0.clone(), c));
            },
            None => {
                proof {
                    lemma_json_entries_view(fields@);
                    assert(!spec_all_values_configurations(json_entries_view(fields@))) by {
                        assert(json_entries_view(fields@)[i as int].1 == json_view(
                            fields@[i as int].1,
                        ));
                    }
                }
                return None;
            },
        }
        i = i + 1;
    }
    proof {
        lemma_json_entries_view(fields@);
        let m = json_entries_view(fields@);
        assert forall|j: int| 0 <= j < m.len() implies spec_decode_configuration(
            #[trigger] m[j].1,
        ) is Some by {
            assert(m[j].1 == json_view(fields@[j].1));
        }
        assert(out.deep_view() =~= spec_configuration_entries(m)) by {
            assert forall|j: int|
                0 <= j < m.len() implies out.deep_view()[j] == spec_configuration_entries(
                m,
            )[j] by {
                assert(m[j] == (fields@[j].0@, json_view(fields@[j].1)));
            }
        }
    }
    Some(out)
}

/// The record typing a stream of events: its data keys and per-device
/// configuration.
#[derive(Debug, PartialEq, Eq)]
pub struct Descriptor {
    pub configuration: Vec<(String, Configuration)>,
    pub data_keys: Vec<(String, DataKey)>,
    pub name: Option<String>,
    pub object_keys: Vec<(String, JsonValue)>,
    pub run_start: String,
    pub time: JsonNum,
    pub uid: String,
}

/// Mathematical model of a [`Descriptor`].
pub struct SpecDescriptor {
    pub configuration: Seq<(Seq<char>, SpecConfiguration)>,
    pub data_keys: Seq<(Seq<char>, SpecDataKey)>,
    pub name: Option<Seq<char>>,
    pub object_keys: Seq<(Seq<char>, SpecJson)>,
    pub run_start: Seq<char>,
    pub time: SpecJsonNum,
    pub uid: Seq<char>,
}

impl View for Descriptor {
    type V = SpecDescriptor;

    open spec fn view(&self) -> SpecDescriptor {
        SpecDescriptor {
            configuration: self.configuration.deep_view(),
            data_keys: self.data_keys.deep_view(),
            name: self.name.deep_view(),
            object_keys: json_entries_view(self.object_keys@),
            run_start: self.run_start@,
            time: self.time@,
            uid: self.uid@,
        }
    }
}

/// The descriptor record a wire object denotes, if any.
pub open spec fn spec_decode_descriptor(v: SpecJson) -> Option<SpecDescriptor> {
    match v {
        SpecJson::Obj(obj) => if (spec_obj_or_empty(obj, "configuration"@) matches Some(cf)
            && spec_all_values_configurations(cf)) && (spec_req_obj(obj, "data_keys"@) matches Some(
            dk,
        ) && spec_all_values_data_keys(dk)) && spec_opt_str(obj, "name"@) is Some
            && spec_obj_or_empty(obj, "object_keys"@) is Some && spec_req_str(
            obj,
            "run_start"@,
        ) is Some && spec_req_num(obj, "time"@) is Some && spec_req_str(obj, "uid"@) is Some {
            Some(
                SpecDescriptor {
                    configuration: spec_configuration_entries(
                        spec_obj_or_empty(obj, "configuration"@)->Some_0,
                    ),
                    data_keys: spec_data_key_entries(spec_req_obj(obj, "data_keys"@)->Some_0),
                    name: spec_opt_str(obj, "name"@)->Some_0,
                    object_keys: spec_obj_or_empty(obj, "object_keys"@)->Some_0,
                    run_start: spec_req_str(obj, "run_start"@)->Some_0,
                    time: spec_req_num(obj, "time"@)->Some_0,
                    uid: spec_req_str(obj, "uid"@)->Some_0,
                },
            )
        } else {
            None
        },
        _ => None,
    }
}

/// Reads a descriptor record, as [`spec_decode_descriptor`] describes.
pub fn decode_descriptor(v: &JsonValue) -> (r: Option<Descriptor>)
    ensures
        match r {
            Some(d) => spec_decode_descriptor(v@) == Some(d@),
            None => spec_decode_descriptor(v@) is None,
        },
{
    match v {
        JsonValue::Obj(fields) => {
            let cf_fields = match get_obj_or_empty(fields, "configuration") {
                Some(c) => c,
                None => {
                    return None;
                },
            };
            let configuration = match decode_configuration_entries(&cf_fields) {
                Some(c) => c,
                None => {
                    return None;
                },
            };
            let dk_fields = match get_req_obj(fields, "data_keys") {
                Some(d) => d,
                None => {
                    return None;
                },
            };
            let data_keys = match decode_data_key_entries(&dk_fields) {
                Some(d) => d,
                None => {
                    return None;
                },
            };
            let name = match get_opt_str(fields, "name") {
                Some(n) => n,
                None => {
                    return None;
                },
            };
            let object_keys = match get_obj_or_empty(fields, "object_keys") {
                Some(o) => o,
                None => {
                    return None;
                },
            };
            let run_start = match get_req_str(fields, "run_start") {
                Some(s) => s,
                None => {
                    return None;
                },
            };
            let time = match get_req_num(fields, "time") {
                Some(t) => t,
                None => {
                    return None;
                },
            };
            let uid = match get_req_str(fields, "uid") {
                Some(s) => s,
                None => {
                    return None;
                },
            };
            Some(
                Descriptor {
                    configuration,
                    data_keys,
                    name,
                    object_keys,
                    run_start,
                    time,
                    uid,
                },
            )
        },
        _ => None,
    }
}

/// A page of events: the readings of many steps in column form.
#[derive(Debug, PartialEq, Eq)]
pub struct EventPage {
    pub data: Vec<(String, Vec<JsonValue>)>,
    pub time: Vec<JsonNum>,
    pub timestamps: Vec<(String, Vec<JsonValue>)>,
    pub descriptor: String,
    pub seq_num: Vec<i32>,
    pub uid: Vec<String>,
}

/// Mathematical model of an [`EventPage`].
pub struct SpecEventPage {
    pub data: Seq<(Seq<char>, Seq<SpecJson>)>,
    pub time: Seq<SpecJsonNum>,
    pub timestamps: Seq<(Seq<char>, Seq<SpecJson>)>,
    pub descriptor: Seq<char>,
    pub seq_num: Seq<i32>,
    pub uid: Seq<Seq<char>>,
}

impl View for EventPage {
    type V = SpecEventPage;

    open spec fn view(&self) -> SpecEventPage {
        SpecEventPage {
            data: self.data.deep_view(),
            time: self.time.deep_view(),
            timestamps: self.timestamps.deep_view(),
            descriptor: self.descriptor@,
            seq_num: self.seq_num.deep_view(),
            uid: self.uid.deep_view(),
        }
    }
}

/// The event-page record a wire object denotes, if any.
pub open spec fn spec_decode_event_page(v: SpecJson) -> Option<SpecEventPage> {
    match v {
        SpecJson::Obj(obj) => if (spec_req_obj(obj, "data"@) matches Some(df)
            && spec_all_values_arrays(df)) && (spec_req_arr(obj, "time"@) matches Some(ts)
            && spec_all_numbers(ts)) && (spec_req_obj(obj, "timestamps"@) matches Some(tf)
            && spec_all_values_arrays(tf)) && spec_req_str(obj, "descriptor"@) is Some && (
        spec_req_arr(obj, "seq_num"@) matches Some(sn) && spec_all_i32(sn)) && spec_req_str_arr(
            obj,
            "uid"@,
        ) is Some {
            Some(
                SpecEventPage {
                    data: spec_arr_entries(spec_req_obj(obj, "data"@)->Some_0),
                    time: spec_num_values(spec_req_arr(obj, "time"@)->Some_0),
                    timestamps: spec_arr_entries(spec_req_obj(obj, "timestamps"@)->Some_0),
                    descriptor: spec_req_str(obj, "descriptor"@)->Some_0,
                    seq_num: spec_i32_values(spec_req_arr(obj, "seq_num"@)->Some_0),
                    uid: spec_req_str_arr(obj, "uid"@)->Some_0,
                },
            )
        } else {
            None
        },
        _ => None,
    }
}

/// Reads an event-page record, as [`spec_decode_event_page`] describes.
pub fn decode_event_page(v: &JsonValue) -> (r: Option<EventPage>)
    ensures
        match r {
            Some(d) => spec_decode_event_page(v@) == Some(d@),
            None => spec_decode_event_page(v@) is None,
        },
{
    match v {
        JsonValue::Obj(fields) => {
            let data_fields = match get_req_obj(fields, "data") {
                Some(d) => d,
                None => {
                    return None;
                },
            };
            let data = match decode_arr_entries(&data_fields) {
                Some(d) => d,
                None => {
                    return None;
                },
            };
            let time_items = match obj_lookup(fields, "time") {
                Some(JsonValue::Arr(items)) => items,
                _ => {
                    return None;
                },
            };
            let time = match decode_num_list(time_items) {
                Some(t) => t,
                None => {
                    return None;
                },
            };
            let ts_fields = match get_req_obj(fields, "timestamps") {
                Some(t) => t,
                None => {
                    return None;
                },
            };
            let timestamps = match decode_arr_entries(&ts_fields) {
                Some(t) => t,
                None => {
                    return None;
                },
            };
            let descriptor = match get_req_str(fields, "descriptor") {
                Some(s) => s,
                None => {
                    return None;
                },
            };
            let sn_items = match obj_lookup(fields, "seq_num") {
                Some(JsonValue::Arr(items)) => items,
                _ => {
                    return None;
                },
            };
            let seq_num = match decode_i32_list(sn_items) {
                Some(s) => s,
                None => {
                    return None;
                },
            };
            let uid = match get_req_str_arr(fields, "uid") {
                Some(u) => u,
                None => {
                    return None;
                },
            };
            Some(EventPage { data, time, timestamps, descriptor, seq_num, uid })
        },
        _ => None,
    }
}

/// A page of datum records in column form.
#[derive(Debug, PartialEq, Eq)]
pub struct DatumPage {
    pub datum_id: Vec<String>,
    pub datum_kwargs: Vec<(String, Vec<JsonValue>)>,
    pub resource: String,
}

/// Mathematical model of a [`DatumPage`].
pub struct SpecDatumPage {
    pub datum_id: Seq<Seq<char>>,
    pub datum_kwargs: Seq<(Seq<char>, Seq<SpecJson>)>,
    pub resource: Seq<char>,
}

impl View for DatumPage {
    type V = SpecDatumPage;

    open spec fn view(&self) -> SpecDatumPage {
        SpecDatumPage {
            datum_id: self.datum_id.deep_view(),
            datum_kwargs: self.datum_kwargs.deep_view(),
            resource: self.resource@,
        }
    }
}

/// The datum-page record a wire object denotes, if any.
pub open spec fn spec_decode_datum_page(v: SpecJson) -> Option<SpecDatumPage> {
    match v {
        SpecJson::Obj(obj) => if spec_req_str_arr(obj, "datum_id"@) is Some && (spec_req_obj(
            obj,
            "datum_kwargs"@,
        ) matches Some(kf) && spec_all_values_arrays(kf)) && spec_req_str(obj, "resource"@) is Some {
            Some(
                SpecDatumPage {
                    datum_id: spec_req_str_arr(obj, "datum_id"@)->Some_0,
                    datum_kwargs: spec_arr_entries(spec_req_obj(obj, "datum_kwargs"@)->Some_0),
                    resource: spec_req_str(obj, "resource"@)->Some_0,
                },
            )
        } else {
            None
        },
        _ => None,
    }
}

/// Reads a datum-page record, as [`spec_decode_datum_page`] describes.
pub fn decode_datum_page(v: &JsonValue) -> (r: Option<DatumPage>)
    ensures
        match r {
            Some(d) => spec_decode_datum_page(v@) == Some(d@),
            None => spec_decode_datum_page(v@) is None,
        },
{
    match v {
        JsonValue::Obj(fields) => {
            let datum_id = match get_req_str_arr(fields, "datum_id") {
                Some(d) => d,
                None => {
                    return None;
                },
            };
            let kw_fields = match get_req_obj(fields, "datum_kwargs") {
                Some(k) => k,
                None => {
                    return None;
                },
            };
            let datum_kwargs = match decode_arr_entries(&kw_fields) {
                Some(k) => k,
                None => {
                    return None;
                },
            };
            let resource = match get_req_str(fields, "resource") {
                Some(s) => s,
                None => {
                    return None;
                },
            };
            Some(DatumPage { datum_id, datum_kwargs, resource })
        },
        _ => None,
    }
}

/// One structured record describing part of an experiment run, identified
/// on the wire by its `name` tag.
#[derive(Debug, PartialEq, Eq)]
pub enum EventDocument {
    Stop(Stop),
    Start(Start),
    Descriptor(Descriptor),
    Event(Event),
    Datum(Datum),
    Resource(Resource),
    EventPage(EventPage),
    DatumPage(DatumPage),
    StreamResource(StreamResource),
    StreamDatum(StreamDatum),
}

/// Mathematical model of an [`EventDocument`].
pub enum SpecEventDocument {
    Stop(SpecStop),
    Start(SpecStart),
    Descriptor(SpecDescriptor),
    Event(SpecEvent),
    Datum(SpecDatum),
    Resource(SpecResource),
    EventPage(SpecEventPage),
    DatumPage(SpecDatumPage),
    StreamResource(SpecStreamResource),
    StreamDatum(SpecStreamDatum),
}

impl View for EventDocument {
    type V = SpecEventDocument;

    open spec fn view(&self) -> SpecEventDocument {
        match self {
            EventDocument::Stop(d) => SpecEventDocument::Stop(d@),
            EventDocument::Start(d) => SpecEventDocument::Start(d@),
            EventDocument::Descriptor(d) => SpecEventDocument::Descriptor(d@),
            EventDocument::Event(d) => SpecEventDocument::Event(d@),
            EventDocument::Datum(d) => SpecEventDocument::Datum(d@),
            EventDocument::Resource(d) => SpecEventDocument::Resource(d@),
            EventDocument::EventPage(d) => SpecEventDocument::EventPage(d@),
            EventDocument::DatumPage(d) => SpecEventDocument::DatumPage(d@),
            EventDocument::StreamResource(d) => SpecEventDocument::StreamResource(d@),
            EventDocument::StreamDatum(d) => SpecEventDocument::StreamDatum(d@),
        }
    }
}

/// The document a `name` tag and `doc` content denote: exactly one variant
/// per known tag, a failure on an unknown tag, so that unsupported protocol
/// evolution stays visible.
pub open spec fn spec_decode_document(tag: Seq<char>, doc: SpecJson) -> Option<SpecEventDocument> {
    if tag == "stop"@ {
        match spec_decode_stop(doc) {
            Some(d) => Some(SpecEventDocument::Stop(d)),
            None => None,
        }
    } else if tag == "start"@ {
        match spec_decode_start(doc) {
            Some(d) => Some(SpecEventDocument::Start(d)),
            None => None,
        }
    } else if tag == "descriptor"@ {
        match spec_decode_descriptor(doc) {
            Some(d) => Some(SpecEventDocument::Descriptor(d)),
            None => None,
        }
    } else if tag == "event"@ {
        match spec_decode_event(doc) {
            Some(d) => Some(SpecEventDocument::Event(d)),
            None => None,
        }
    } else if tag == "datum"@ {
        match spec_decode_datum(doc) {
            Some(d) => Some(SpecEventDocument::Datum(d)),
            None => None,
        }
    } else if tag == "resource"@ {
        match spec_decode_resource(doc) {
            Some(d) => Some(SpecEventDocument::Resource(d)),
            None => None,
        }
    } else if tag == "event_page"@ {
        match spec_decode_event_page(doc) {
            Some(d) => Some(SpecEventDocument::EventPage(d)),
            None => None,
        }
    } else if tag == "datum_page"@ {
        match spec_decode_datum_page(doc) {
            Some(d) => Some(SpecEventDocument::DatumPage(d)),
            None => None,
        }
    } else if tag == "stream_resource"@ {
        match spec_decode_stream_resource(doc) {
            Some(d) => Some(SpecEventDocument::StreamResource(d)),
            None => None,
        }
    } else if tag == "stream_datum"@ {
        match spec_decode_stream_datum(doc) {
            Some(d) => Some(SpecEventDocument::StreamDatum(d)),
            None => None,
        }
    } else {
        None
    }
}

/// Reads a tagged document, as [`spec_decode_document`] describes.
pub fn decode_document(tag: &str, doc: &JsonValue) -> (r: Option<EventDocument>)
    ensures
        match r {
            Some(d) => spec_decode_document(tag@, doc@) == Some(d@),
            None => spec_decode_document(tag@, doc@) is None,
        },
{
    if str_eq(tag, "stop") {
        match decode_stop(doc) {
            Some(d) => Some(EventDocument::Stop(d)),
            None => None,
        }
    } else if str_eq(tag, "start") {
        match decode_start(doc) {
            Some(d) => Some(EventDocument::Start(d)),
            None => None,
        }
    } else if str_eq(tag, "descriptor") {
        match decode_descriptor(doc) {
            Some(d) => Some(EventDocument::Descriptor(d)),
            None => None,
        }
    } else if str_eq(tag, "event") {
        match decode_event(doc) {
            Some(d) => Some(EventDocument::Event(d)),
            None => None,
        }
    } else if str_eq(tag, "datum") {
        match decode_datum(doc) {
            Some(d) => Some(EventDocument::Datum(d)),
            None => None,
        }
    } else if str_eq(tag, "resource") {
        match decode_resource(doc) {
            Some(d) => Some(EventDocument::Resource(d)),
            None => None,
        }
    } else if str_eq(tag, "event_page") {
        match decode_event_page(doc) {
            Some(d) => Some(EventDocument::EventPage(d)),
            None => None,
        }
    } else if str_eq(tag, "datum_page") {
        match decode_datum_page(doc) {
            Some(d) => Some(EventDocument::DatumPage(d)),
            None => None,
        }
    } else if str_eq(tag, "stream_resource") {
        match decode_stream_resource(doc) {
            Some(d) => Some(EventDocument::StreamResource(d)),
            None => None,
        }
    } else if str_eq(tag, "stream_datum") {
        match decode_stream_datum(doc) {
            Some(d) => Some(EventDocument::StreamDatum(d)),
            None => None,
        }
    } else {
        None
    }
}

} // verus!
