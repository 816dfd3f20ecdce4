//! The library's own model of a JSON value, and the trusted bridge between
//! that model and `serde_json`.
//!
//! Every decoder in this crate works on [`JsonValue`]; only the two bridge
//! functions [`parse_json`] and [`render_json`] touch the wire text. The
//! mathematical model of a value is [`SpecJson`], reached through `@`.

use vstd::prelude::*;

use serde_json::Number;
use serde_json::Value;

verus! {

/// A JSON number as it appeared on the wire: unsigned or signed integers
/// directly, any other number (fractions, exponents) by its decimal text.
#[derive(Debug, PartialEq, Eq)]
pub enum JsonNum {
    UInt(u64),
    Int(i64),
    Dec(String),
}

/// A JSON value: the raw structured payload that every decoder of this
/// library works on. Object fields keep their wire order.
#[derive(Debug, PartialEq, Eq)]
pub enum JsonValue {
    Null,
    Bool(bool),
    Num(JsonNum),
    Str(String),
    Arr(Vec<JsonValue>),
    Obj(Vec<(String, JsonValue)>),
}

/// Mathematical model of a [`JsonNum`].
pub enum SpecJsonNum {
    UInt(u64),
    Int(i64),
    Dec(Seq<char>),
}

/// Mathematical model of a [`JsonValue`].
pub enum SpecJson {
    Null,
    Bool(bool),
    Num(SpecJsonNum),
    Str(Seq<char>),
    Arr(Seq<SpecJson>),
    Obj(Seq<(Seq<char>, SpecJson)>),
}

impl View for JsonNum {
    type V = SpecJsonNum;

    open spec fn view(&self) -> SpecJsonNum {
        match self {
            JsonNum::UInt(u) => SpecJsonNum::UInt(*u),
            JsonNum::Int(i) => SpecJsonNum::Int(*i),
            JsonNum::Dec(s) => SpecJsonNum::Dec(s@),
        }
    }
}

/// The model of a JSON value.
pub open spec fn json_view(v: JsonValue) -> SpecJson
    decreases v,
{
    match v {
        JsonValue::Null => SpecJson::Null,
        JsonValue::Bool(b) => SpecJson::Bool(b),
        JsonValue::Num(n) => SpecJson::Num(n@),
        JsonValue::Str(s) => SpecJson::Str(s@),
        JsonValue::Arr(items) => SpecJson::Arr(json_seq_view(items@)),
        JsonValue::Obj(fields) => SpecJson::Obj(json_entries_view(fields@)),
    }
}

/// The models of the elements of a JSON array.
pub open spec fn json_seq_view(items: Seq<JsonValue>) -> Seq<SpecJson>
    decreases items,
{
    if items.len() == 0 {
        Seq::empty()
    } else {
        seq![json_view(items[0])] + json_seq_view(items.skip(1))
    }
}

/// The models of the fields of a JSON object, in wire order.
pub open spec fn json_entries_view(fields: Seq<(String, JsonValue)>) -> Seq<
    (Seq<char>, SpecJson),
>
    decreases fields,
{
    if fields.len() == 0 {
        Seq::empty()
    } else {
        seq![(fields[0].0@, json_view(fields[0].1))] + json_entries_view(fields.skip(1))
    }
}

impl View for JsonValue {
    type V = SpecJson;

    open spec fn view(&self) -> SpecJson {
        json_view(*self)
    }
}

/// `json_seq_view` is the element-wise model map.
pub proof fn lemma_json_seq_view(items: Seq<JsonValue>)
    ensures
        json_seq_view(items).len() == items.len(),
        forall|i: int| 0 <= i < items.len() ==> json_seq_view(items)[i] == json_view(items[i]),
    decreases items.len(),
{
    if items.len() > 0 {
        lemma_json_seq_view(items.skip(1));
        assert forall|i: int| 0 <= i < items.len() implies json_seq_view(items)[i] == json_view(
            items[i],
        ) by {
            if i > 0 {
                assert(json_seq_view(items)[i] == json_seq_view(items.skip(1))[i - 1]);
                assert(items.skip(1)[i - 1] == items[i]);
            }
        }
    }
}

/// `json_entries_view` is the field-wise model map.
pub proof fn lemma_json_entries_view(fields: Seq<(String, JsonValue)>)
    ensures
        json_entries_view(fields).len() == fields.len(),
        forall|i: int|
            0 <= i < fields.len() ==> json_entries_view(fields)[i] == (
            fields[i].0@,
            json_view(fields[i].1),
            ),
    decreases fields.len(),
{
    if fields.len() > 0 {
        lemma_json_entries_view(fields.skip(1));
        assert forall|i: int|
            0 <= i < fields.len() implies json_entries_view(fields)[i] == (
        fields[i].0@,
        json_view(fields[i].1),
        ) by {
            if i > 0 {
                assert(json_entries_view(fields)[i] == json_entries_view(fields.skip(1))[i - 1]);
                assert(fields.skip(1)[i - 1] == fields[i]);
            }
        }
    }
}

impl DeepView for JsonNum {
    type V = SpecJsonNum;

    open spec fn deep_view(&self) -> SpecJsonNum {
        self.view()
    }
}

impl DeepView for JsonValue {
    type V = SpecJson;

    open spec fn deep_view(&self) -> SpecJson {
        json_view(*self)
    }
}

/// The deep view of a list of values is its element-wise model.
pub proof fn lemma_list_deep_view(items: Vec<JsonValue>)
    ensures
        items.deep_view() == json_seq_view(items@),
{
    lemma_json_seq_view(items@);
    assert(items.deep_view() =~= json_seq_view(items@));
}

impl Clone for JsonNum {
    fn clone(&self) -> (res: Self)
        ensures
            res == *self,
    {
        match self {
            JsonNum::UInt(u) => JsonNum::UInt(*u),
            JsonNum::Int(i) => JsonNum::Int(*i),
            JsonNum::Dec(s) => JsonNum::Dec(s.clone()),
        }
    }
}

/// A copy of `v` with the same model.
pub fn clone_value(v: &JsonValue) -> (res: JsonValue)
    ensures
        res@ == v@,
    decreases *v,
{
    match v {
        JsonValue::Null => JsonValue::Null,
        JsonValue::Bool(b) => JsonValue::Bool(*b),
        JsonValue::Num(n) => JsonValue::Num(n.clone()),
        JsonValue::Str(s) => JsonValue::Str(s.clone()),
        JsonValue::Arr(items) => {
            proof {
                assert(decreases_to!(*v => *items));
                assert(decreases_to!(*items => items@));
            }
            let copy = clone_list(items);
            proof {
                lemma_json_seq_view(copy@);
                lemma_json_seq_view(items@);
                assert(json_seq_view(copy@) =~= json_seq_view(items@));
            }
            JsonValue::Arr(copy)
        },
        JsonValue::Obj(fields) => {
            proof {
                assert(decreases_to!(*v => *fields));
                assert(decreases_to!(*fields => fields@));
            }
            let copy = clone_entries(fields);
            proof {
                lemma_json_entries_view(copy@);
                lemma_json_entries_view(fields@);
                assert(json_entries_view(copy@) =~= json_entries_view(fields@));
            }
            JsonValue::Obj(copy)
        },
    }
}

/// A copy of `items` whose elements have the same models.
pub fn clone_list(items: &Vec<JsonValue>) -> (res: Vec<JsonValue>)
    ensures
        res@.len() == items@.len(),
        forall|i: int| 0 <= i < items@.len() ==> res@[i]@ == items@[i]@,
    decreases items@,
{
    let mut out: Vec<JsonValue> = Vec::new();
    let mut i: usize = 0;
    while i < items.len()
        invariant
            i <= items@.len(),
            out@.len() == i,
            forall|j: int| 0 <= j < i ==> out@[j]@ == items@[j]@,
        decreases items@.len() - i,
    {
        out.push(clone_value(&items[i]));
        i = i + 1;
    }
    out
}

/// A copy of `fields` whose keys and values have the same models.
pub fn clone_entries(fields: &Vec<(String, JsonValue)>) -> (res: Vec<(String, JsonValue)>)
    ensures
        res@.len() == fields@.len(),
        forall|i: int|
            0 <= i < fields@.len() ==> res@[i].0 == fields@[i].0 && res@[i].1@ == fields@[i].1@,
    decreases fields@,
{
    let mut out: Vec<(String, JsonValue)> = Vec::new();
    let mut i: usize = 0;
    while i < fields.len()
        invariant
            i <= fields@.len(),
            out@.len() == i,
            forall|j: int| 0 <= j < i ==> out@[j].0 == fields@[j].0 && out@[j].1@ == fields@[j].1@,
        decreases fields@.len() - i,
    {
        let pair = &fields[i];
        out.push((pair.0.clone(), clone_value(&pair.1)));
        i = i + 1;
    }
    out
}

impl Clone for JsonValue {
    fn clone(&self) -> (res: Self)
        ensures
            res@ == self@,
    {
        clone_value(self)
    }
}

/// Whether two strings have the same characters.
pub fn str_eq(a: &str, b: &str) -> (r: bool)
    ensures
        r == (a@ == b@),
{
    let x: String = a.to_owned();
    let y: String = b.to_owned();
    x == y
}

/// The first field of `obj` whose key is `key`, if any.
pub open spec fn spec_lookup(obj: Seq<(Seq<char>, SpecJson)>, key: Seq<char>) -> Option<SpecJson>
    decreases obj.len(),
{
    if obj.len() == 0 {
        None
    } else if obj[0].0 == key {
        Some(obj[0].1)
    } else {
        spec_lookup(obj.skip(1), key)
    }
}

/// Unrolls [`spec_lookup`] one field at a time.
pub proof fn lemma_lookup_cons(
    head: (Seq<char>, SpecJson),
    rest: Seq<(Seq<char>, SpecJson)>,
    key: Seq<char>,
)
    ensures
        spec_lookup(seq![head] + rest, key) == if head.0 == key {
            Some(head.1)
        } else {
            spec_lookup(rest, key)
        },
{
    let s = seq![head] + rest;
    assert(s[0] == head);
    assert(s.skip(1) =~= rest);
}

proof fn lemma_lookup_step(obj: Seq<(Seq<char>, SpecJson)>, key: Seq<char>, i: int)
    requires
        0 <= i < obj.len(),
        forall|j: int| 0 <= j < i ==> obj[j].0 != key,
    ensures
        spec_lookup(obj, key) == if obj[i].0 == key {
            Some(obj[i].1)
        } else {
            spec_lookup(obj.skip(i + 1), key)
        },
    decreases i,
{
    if i > 0 {
        lemma_lookup_step(obj.skip(1), key, i - 1);
        assert(obj.skip(1)[i - 1] == obj[i]);
        assert(obj.skip(1).skip(i) =~= obj.skip(i + 1));
    }
}

/// Finds the first field named `key`, as [`spec_lookup`] describes.
pub fn obj_lookup<'a>(fields: &'a Vec<(String, JsonValue)>, key: &str) -> (r: Option<
    &'a JsonValue,
>)
    ensures
        match r {
            Some(v) => spec_lookup(json_entries_view(fields@), key@) == Some(v@),
            None => spec_lookup(json_entries_view(fields@), key@) is None,
        },
{
    proof {
        lemma_json_entries_view(fields@);
    }
    let k: String = key.to_owned();
    let mut i: usize = 0;
    while i < fields.len()
        invariant
            i <= fields@.len(),
            k@ == key@,
            forall|j: int| 0 <= j < i ==> fields@[j].0@ != key@,
        decreases fields@.len() - i,
    {
        let pair = &fields[i];
        if pair.0 == k {
            proof {
                lemma_json_entries_view(fields@);
                lemma_lookup_step(json_entries_view(fields@), key@, i as int);
            }
            return Some(&pair.1);
        }
        i = i + 1;
    }
    proof {
        let m = json_entries_view(fields@);
        lemma_json_entries_view(fields@);
        if m.len() > 0 {
            lemma_lookup_step(m, key@, m.len() - 1);
            assert(m.skip(m.len() as int) =~= Seq::<(Seq<char>, SpecJson)>::empty());
        }
    }
    None
}

// ------------------------------------------------------------------
// Field extraction: the shapes a decoder may require of an object field.
// A helper returns `None` where the field's shape is not the demanded one;
// the `Opt`/`or`-style helpers accept an absent field as serde's derived
// decoders do (absent optional means `None`, absent defaulted means the
// default; an explicit `null` is accepted only for optional fields).
// ------------------------------------------------------------------
/// A required string field.
pub open spec fn spec_req_str(obj: Seq<(Seq<char>, SpecJson)>, key: Seq<char>) -> Option<
    Seq<char>,
> {
    match spec_lookup(obj, key) {
        Some(SpecJson::Str(s)) => Some(s),
        _ => None,
    }
}

/// An optional string field: absent or `null` means none.
pub open spec fn spec_opt_str(obj: Seq<(Seq<char>, SpecJson)>, key: Seq<char>) -> Option<
    Option<Seq<char>>,
> {
    match spec_lookup(obj, key) {
        None => Some(None),
        Some(SpecJson::Null) => Some(None),
        Some(SpecJson::Str(s)) => Some(Some(s)),
        Some(_) => None,
    }
}

/// A required boolean field.
pub open spec fn spec_req_bool(obj: Seq<(Seq<char>, SpecJson)>, key: Seq<char>) -> Option<bool> {
    match spec_lookup(obj, key) {
        Some(SpecJson::Bool(b)) => Some(b),
        _ => None,
    }
}

/// An optional boolean field: absent or `null` means none.
pub open spec fn spec_opt_bool(obj: Seq<(Seq<char>, SpecJson)>, key: Seq<char>) -> Option<
    Option<bool>,
> {
    match spec_lookup(obj, key) {
        None => Some(None),
        Some(SpecJson::Null) => Some(None),
        Some(SpecJson::Bool(b)) => Some(Some(b)),
        Some(_) => None,
    }
}

/// A boolean field that defaults to `false` when absent.
pub open spec fn spec_bool_or_false(obj: Seq<(Seq<char>, SpecJson)>, key: Seq<char>) -> Option<
    bool,
> {
    match spec_lookup(obj, key) {
        None => Some(false),
        Some(SpecJson::Bool(b)) => Some(b),
        Some(_) => None,
    }
}

/// A required numeric field.
pub open spec fn spec_req_num(obj: Seq<(Seq<char>, SpecJson)>, key: Seq<char>) -> Option<
    SpecJsonNum,
> {
    match spec_lookup(obj, key) {
        Some(SpecJson::Num(n)) => Some(n),
        _ => None,
    }
}

/// An optional numeric field: absent or `null` means none.
pub open spec fn spec_opt_num(obj: Seq<(Seq<char>, SpecJson)>, key: Seq<char>) -> Option<
    Option<SpecJsonNum>,
> {
    match spec_lookup(obj, key) {
        None => Some(None),
        Some(SpecJson::Null) => Some(None),
        Some(SpecJson::Num(n)) => Some(Some(n)),
        Some(_) => None,
    }
}

/// The value of a number that fits in an `i32`.
pub open spec fn spec_num_i32(n: SpecJsonNum) -> Option<i32> {
    match n {
        SpecJsonNum::UInt(u) => if u <= i32::MAX as u64 {
            Some(u as i32)
        } else {
            None
        },
        SpecJsonNum::Int(i) => if i32::MIN as i64 <= i && i <= i32::MAX as i64 {
            Some(i as i32)
        } else {
            None
        },
        SpecJsonNum::Dec(_) => None,
    }
}

/// The value of a number that fits in a `u32`.
pub open spec fn spec_num_u32(n: SpecJsonNum) -> Option<u32> {
    match n {
        SpecJsonNum::UInt(u) => if u <= u32::MAX as u64 {
            Some(u as u32)
        } else {
            None
        },
        SpecJsonNum::Int(i) => if 0 <= i && i <= u32::MAX as i64 {
            Some(i as u32)
        } else {
            None
        },
        SpecJsonNum::Dec(_) => None,
    }
}

/// A required field holding an `i32`.
pub open spec fn spec_req_i32(obj: Seq<(Seq<char>, SpecJson)>, key: Seq<char>) -> Option<i32> {
    match spec_req_num(obj, key) {
        Some(n) => spec_num_i32(n),
        None => None,
    }
}

/// A required field holding a `u32`.
pub open spec fn spec_req_u32(obj: Seq<(Seq<char>, SpecJson)>, key: Seq<char>) -> Option<u32> {
    match spec_req_num(obj, key) {
        Some(n) => spec_num_u32(n),
        None => None,
    }
}

/// An optional field holding an `i32`: absent or `null` means none.
pub open spec fn spec_opt_i32(obj: Seq<(Seq<char>, SpecJson)>, key: Seq<char>) -> Option<
    Option<i32>,
> {
    match spec_opt_num(obj, key) {
        Some(None) => Some(None),
        Some(Some(n)) => match spec_num_i32(n) {
            Some(v) => Some(Some(v)),
            None => None,
        },
        None => None,
    }
}

/// An optional field holding a `u32`: absent or `null` means none.
pub open spec fn spec_opt_u32(obj: Seq<(Seq<char>, SpecJson)>, key: Seq<char>) -> Option<
    Option<u32>,
> {
    match spec_opt_num(obj, key) {
        Some(None) => Some(None),
        Some(Some(n)) => match spec_num_u32(n) {
            Some(v) => Some(Some(v)),
            None => None,
        },
        None => None,
    }
}

/// A required object field, as its field list.
pub open spec fn spec_req_obj(obj: Seq<(Seq<char>, SpecJson)>, key: Seq<char>) -> Option<
    Seq<(Seq<char>, SpecJson)>,
> {
    match spec_lookup(obj, key) {
        Some(SpecJson::Obj(fields)) => Some(fields),
        _ => None,
    }
}

/// An object field that defaults to no fields when absent.
pub open spec fn spec_obj_or_empty(obj: Seq<(Seq<char>, SpecJson)>, key: Seq<char>) -> Option<
    Seq<(Seq<char>, SpecJson)>,
> {
    match spec_lookup(obj, key) {
        None => Some(Seq::empty()),
        Some(SpecJson::Obj(fields)) => Some(fields),
        Some(_) => None,
    }
}

/// A required field of any shape.
pub open spec fn spec_req_val(obj: Seq<(Seq<char>, SpecJson)>, key: Seq<char>) -> Option<
    SpecJson,
> {
    spec_lookup(obj, key)
}

/// An optional field of any shape: absent or `null` means none.
pub open spec fn spec_opt_val(obj: Seq<(Seq<char>, SpecJson)>, key: Seq<char>) -> Option<
    Option<SpecJson>,
> {
    match spec_lookup(obj, key) {
        None => Some(None),
        Some(SpecJson::Null) => Some(None),
        Some(v) => Some(Some(v)),
    }
}

/// A required array field, as the models of its elements.
pub open spec fn spec_req_arr(obj: Seq<(Seq<char>, SpecJson)>, key: Seq<char>) -> Option<
    Seq<SpecJson>,
> {
    match spec_lookup(obj, key) {
        Some(SpecJson::Arr(items)) => Some(items),
        _ => None,
    }
}

/// Whether every element of `items` is a string.
pub open spec fn spec_all_strings(items: Seq<SpecJson>) -> bool {
    forall|i: int| 0 <= i < items.len() ==> items[i] is Str
}

/// The strings of an all-string array.
pub open spec fn spec_str_values(items: Seq<SpecJson>) -> Seq<Seq<char>> {
    items.map_values(|x: SpecJson| x->Str_0)
}

/// A required array-of-strings field.
pub open spec fn spec_req_str_arr(obj: Seq<(Seq<char>, SpecJson)>, key: Seq<char>) -> Option<
    Seq<Seq<char>>,
> {
    match spec_req_arr(obj, key) {
        Some(items) => if spec_all_strings(items) {
            Some(spec_str_values(items))
        } else {
            None
        },
        None => None,
    }
}

/// An array-of-strings field that defaults to empty when absent.
pub open spec fn spec_str_arr_or_empty(obj: Seq<(Seq<char>, SpecJson)>, key: Seq<char>) -> Option<
    Seq<Seq<char>>,
> {
    match spec_lookup(obj, key) {
        None => Some(Seq::empty()),
        Some(SpecJson::Arr(items)) => if spec_all_strings(items) {
            Some(spec_str_values(items))
        } else {
            None
        },
        Some(_) => None,
    }
}

/// Extracts a required string field, as [`spec_req_str`] describes.
pub fn get_req_str(fields: &Vec<(String, JsonValue)>, key: &str) -> (r: Option<String>)
    ensures
        match r {
            Some(s) => spec_req_str(json_entries_view(fields@), key@) == Some(s@),
            None => spec_req_str(json_entries_view(fields@), key@) is None,
        },
{
    match obj_lookup(fields, key) {
        Some(v) => match v {
            JsonValue::Str(s) => Some(s.clone()),
            _ => None,
        },
        None => None,
    }
}

/// Extracts an optional string field, as [`spec_opt_str`] describes.
pub fn get_opt_str(fields: &Vec<(String, JsonValue)>, key: &str) -> (r: Option<Option<String>>)
    ensures
        match r {
            Some(None) => spec_opt_str(json_entries_view(fields@), key@) == Some(
                None::<Seq<char>>,
            ),
            Some(Some(s)) => spec_opt_str(json_entries_view(fields@), key@) == Some(Some(s@)),
            None => spec_opt_str(json_entries_view(fields@), key@) is None,
        },
{
    match obj_lookup(fields, key) {
        None => Some(None),
        Some(v) => match v {
            JsonValue::Null => Some(None),
            JsonValue::Str(s) => Some(Some(s.clone())),
            _ => None,
        },
    }
}

/// Extracts a required boolean field, as [`spec_req_bool`] describes.
pub fn get_req_bool(fields: &Vec<(String, JsonValue)>, key: &str) -> (r: Option<bool>)
    ensures
        match r {
            Some(b) => spec_req_bool(json_entries_view(fields@), key@) == Some(b),
            None => spec_req_bool(json_entries_view(fields@), key@) is None,
        },
{
    match obj_lookup(fields, key) {
        Some(v) => match v {
            JsonValue::Bool(b) => Some(*b),
            _ => None,
        },
        None => None,
    }
}

/// Extracts an optional boolean field, as [`spec_opt_bool`] describes.
pub fn get_opt_bool(fields: &Vec<(String, JsonValue)>, key: &str) -> (r: Option<Option<bool>>)
    ensures
        match r {
            Some(ob) => spec_opt_bool(json_entries_view(fields@), key@) == Some(ob),
            None => spec_opt_bool(json_entries_view(fields@), key@) is None,
        },
{
    match obj_lookup(fields, key) {
        None => Some(None),
        Some(v) => match v {
            JsonValue::Null => Some(None),
            JsonValue::Bool(b) => Some(Some(*b)),
            _ => None,
        },
    }
}

/// Extracts a boolean field that defaults to `false`, as
/// [`spec_bool_or_false`] describes.
pub fn get_bool_or_false(fields: &Vec<(String, JsonValue)>, key: &str) -> (r: Option<bool>)
    ensures
        match r {
            Some(b) => spec_bool_or_false(json_entries_view(fields@), key@) == Some(b),
            None => spec_bool_or_false(json_entries_view(fields@), key@) is None,
        },
{
    match obj_lookup(fields, key) {
        None => Some(false),
        Some(v) => match v {
            JsonValue::Bool(b) => Some(*b),
            _ => None,
        },
    }
}

/// Extracts a required numeric field, as [`spec_req_num`] describes.
pub fn get_req_num(fields: &Vec<(String, JsonValue)>, key: &str) -> (r: Option<JsonNum>)
    ensures
        match r {
            Some(n) => spec_req_num(json_entries_view(fields@), key@) == Some(n@),
            None => spec_req_num(json_entries_view(fields@), key@) is None,
        },
{
    match obj_lookup(fields, key) {
        Some(v) => match v {
            JsonValue::Num(n) => Some(n.clone()),
            _ => None,
        },
        None => None,
    }
}

/// Extracts an optional numeric field, as [`spec_opt_num`] describes.
pub fn get_opt_num(fields: &Vec<(String, JsonValue)>, key: &str) -> (r: Option<Option<JsonNum>>)
    ensures
        match r {
            Some(None) => spec_opt_num(json_entries_view(fields@), key@) == Some(
                None::<SpecJsonNum>,
            ),
            Some(Some(n)) => spec_opt_num(json_entries_view(fields@), key@) == Some(Some(n@)),
            None => spec_opt_num(json_entries_view(fields@), key@) is None,
        },
{
    match obj_lookup(fields, key) {
        None => Some(None),
        Some(v) => match v {
            JsonValue::Null => Some(None),
            JsonValue::Num(n) => Some(Some(n.clone())),
            _ => None,
        },
    }
}

/// Reads a number as an `i32`, as [`spec_num_i32`] describes.
pub fn num_i32(n: &JsonNum) -> (r: Option<i32>)
    ensures
        r == spec_num_i32(n@),
{
    match n {
        JsonNum::UInt(u) => if *u <= i32::MAX as u64 {
            Some(*u as i32)
        } else {
            None
        },
        JsonNum::Int(i) => if i32::MIN as i64 <= *i && *i <= i32::MAX as i64 {
            Some(*i as i32)
        } else {
            None
        },
        JsonNum::Dec(_) => None,
    }
}

/// Reads a number as a `u32`, as [`spec_num_u32`] describes.
pub fn num_u32(n: &JsonNum) -> (r: Option<u32>)
    ensures
        r == spec_num_u32(n@),
{
    match n {
        JsonNum::UInt(u) => if *u <= u32::MAX as u64 {
            Some(*u as u32)
        } else {
            None
        },
        JsonNum::Int(i) => if 0 <= *i && *i <= u32::MAX as i64 {
            Some(*i as u32)
        } else {
            None
        },
        JsonNum::Dec(_) => None,
    }
}

/// Extracts a required `i32` field, as [`spec_req_i32`] describes.
pub fn get_req_i32(fields: &Vec<(String, JsonValue)>, key: &str) -> (r: Option<i32>)
    ensures
        r == spec_req_i32(json_entries_view(fields@), key@),
{
    match get_req_num(fields, key) {
        Some(n) => num_i32(&n),
        None => None,
    }
}

/// Extracts a required `u32` field, as [`spec_req_u32`] describes.
pub fn get_req_u32(fields: &Vec<(String, JsonValue)>, key: &str) -> (r: Option<u32>)
    ensures
        r == spec_req_u32(json_entries_view(fields@), key@),
{
    match get_req_num(fields, key) {
        Some(n) => num_u32(&n),
        None => None,
    }
}

/// Extracts an optional `i32` field, as [`spec_opt_i32`] describes.
pub fn get_opt_i32(fields: &Vec<(String, JsonValue)>, key: &str) -> (r: Option<Option<i32>>)
    ensures
        r == spec_opt_i32(json_entries_view(fields@), key@),
{
    match get_opt_num(fields, key) {
        None => None,
        Some(None) => Some(None),
        Some(Some(n)) => match num_i32(&n) {
            Some(v) => Some(Some(v)),
            None => None,
        },
    }
}

/// Extracts an optional `u32` field, as [`spec_opt_u32`] describes.
pub fn get_opt_u32(fields: &Vec<(String, JsonValue)>, key: &str) -> (r: Option<Option<u32>>)
    ensures
        r == spec_opt_u32(json_entries_view(fields@), key@),
{
    match get_opt_num(fields, key) {
        None => None,
        Some(None) => Some(None),
        Some(Some(n)) => match num_u32(&n) {
            Some(v) => Some(Some(v)),
            None => None,
        },
    }
}

/// Extracts a required object field, as [`spec_req_obj`] describes.
pub fn get_req_obj(fields: &Vec<(String, JsonValue)>, key: &str) -> (r: Option<
    Vec<(String, JsonValue)>,
>)
    ensures
        match r {
            Some(out) => spec_req_obj(json_entries_view(fields@), key@) == Some(
                json_entries_view(out@),
            ),
            None => spec_req_obj(json_entries_view(fields@), key@) is None,
        },
{
    match obj_lookup(fields, key) {
        Some(v) => match v {
            JsonValue::Obj(inner) => {
                let out = clone_entries(inner);
                proof {
                    lemma_json_entries_view(out@);
                    lemma_json_entries_view(inner@);
                    assert(json_entries_view(out@) =~= json_entries_view(inner@));
                }
                Some(out)
            },
            _ => None,
        },
        None => None,
    }
}

/// Extracts an object field that defaults to no fields, as
/// [`spec_obj_or_empty`] describes.
pub fn get_obj_or_empty(fields: &Vec<(String, JsonValue)>, key: &str) -> (r: Option<
    Vec<(String, JsonValue)>,
>)
    ensures
        match r {
            Some(out) => spec_obj_or_empty(json_entries_view(fields@), key@) == Some(
                json_entries_view(out@),
            ),
            None => spec_obj_or_empty(json_entries_view(fields@), key@) is None,
        },
{
    match obj_lookup(fields, key) {
        None => {
            let out: Vec<(String, JsonValue)> = Vec::new();
            Some(out)
        },
        Some(v) => match v {
            JsonValue::Obj(inner) => {
                let out = clone_entries(inner);
                proof {
                    lemma_json_entries_view(out@);
                    lemma_json_entries_view(inner@);
                    assert(json_entries_view(out@) =~= json_entries_view(inner@));
                }
                Some(out)
            },
            _ => None,
        },
    }
}

/// Extracts a required field of any shape, as [`spec_req_val`] describes.
pub fn get_req_val(fields: &Vec<(String, JsonValue)>, key: &str) -> (r: Option<JsonValue>)
    ensures
        match r {
            Some(v) => spec_req_val(json_entries_view(fields@), key@) == Some(v@),
            None => spec_req_val(json_entries_view(fields@), key@) is None,
        },
{
    match obj_lookup(fields, key) {
        Some(v) => Some(clone_value(v)),
        None => None,
    }
}

/// Extracts an optional field of any shape, as [`spec_opt_val`] describes.
pub fn get_opt_val(fields: &Vec<(String, JsonValue)>, key: &str) -> (r: Option<Option<JsonValue>>)
    ensures
        match r {
            Some(None) => spec_opt_val(json_entries_view(fields@), key@) == Some(None::<SpecJson>),
            Some(Some(v)) => spec_opt_val(json_entries_view(fields@), key@) == Some(Some(v@)),
            None => spec_opt_val(json_entries_view(fields@), key@) is None,
        },
{
    match obj_lookup(fields, key) {
        None => Some(None),
        Some(v) => match v {
            JsonValue::Null => Some(None),
            _ => Some(Some(clone_value(v))),
        },
    }
}

/// Extracts a required array field, as [`spec_req_arr`] describes.
pub fn get_req_arr(fields: &Vec<(String, JsonValue)>, key: &str) -> (r: Option<Vec<JsonValue>>)
    ensures
        match r {
            Some(out) => spec_req_arr(json_entries_view(fields@), key@) == Some(
                json_seq_view(out@),
            ),
            None => spec_req_arr(json_entries_view(fields@), key@) is None,
        },
{
    match obj_lookup(fields, key) {
        Some(v) => match v {
            JsonValue::Arr(items) => {
                let out = clone_list(items);
                proof {
                    lemma_json_seq_view(out@);
                    lemma_json_seq_view(items@);
                    assert(json_seq_view(out@) =~= json_seq_view(items@));
                }
                Some(out)
            },
            _ => None,
        },
        None => None,
    }
}

/// Reads an all-string array into its strings; fails on any other element.
pub fn list_strings(items: &Vec<JsonValue>) -> (r: Option<Vec<String>>)
    ensures
        match r {
            Some(out) => spec_all_strings(json_seq_view(items@)) && out.deep_view()
                == spec_str_values(json_seq_view(items@)),
            None => !spec_all_strings(json_seq_view(items@)),
        },
{
    proof {
        lemma_json_seq_view(items@);
    }
    let mut out: Vec<String> = Vec::new();
    let mut i: usize = 0;
    while i < items.len()
        invariant
            i <= items@.len(),
            out@.len() == i,
            forall|j: int| 0 <= j < i ==> json_view(#[trigger] items@[j]) is Str,
            forall|j: int| 0 <= j < i ==> out@[j]@ == json_view(#[trigger] items@[j])->Str_0,
        decreases items@.len() - i,
    {
        match &items[i] {
            JsonValue::Str(s) => {
                out.push(s.clone());
            },
            _ => {
                proof {
                    lemma_json_seq_view(items@);
                    assert(!(json_seq_view(items@)[i as int] is Str));
                }
                return None;
            },
        }
        i = i + 1;
    }
    proof {
        lemma_json_seq_view(items@);
        let m = json_seq_view(items@);
        assert forall|j: int| 0 <= j < m.len() implies #[trigger] m[j] is Str by {}
        assert(out.deep_view() =~= spec_str_values(m)) by {
            assert forall|j: int| 0 <= j < m.len() implies out.deep_view()[j] == spec_str_values(
                m,
            )[j] by {
                assert(out.deep_view()[j] == out@[j]@);
                assert(spec_str_values(m)[j] == m[j]->Str_0);
            }
        }
    }
    Some(out)
}

/// Extracts a required array-of-strings field, as [`spec_req_str_arr`]
/// describes.
pub fn get_req_str_arr(fields: &Vec<(String, JsonValue)>, key: &str) -> (r: Option<Vec<String>>)
    ensures
        match r {
            Some(out) => spec_req_str_arr(json_entries_view(fields@), key@) == Some(
                out.deep_view(),
            ),
            None => spec_req_str_arr(json_entries_view(fields@), key@) is None,
        },
{
    match obj_lookup(fields, key) {
        Some(v) => match v {
            JsonValue::Arr(items) => list_strings(items),
            _ => None,
        },
        None => None,
    }
}

/// Extracts an array-of-strings field that defaults to empty, as
/// [`spec_str_arr_or_empty`] describes.
pub fn get_str_arr_or_empty(fields: &Vec<(String, JsonValue)>, key: &str) -> (r: Option<
    Vec<String>,
>)
    ensures
        match r {
            Some(out) => spec_str_arr_or_empty(json_entries_view(fields@), key@) == Some(
                out.deep_view(),
            ),
            None => spec_str_arr_or_empty(json_entries_view(fields@), key@) is None,
        },
{
    match obj_lookup(fields, key) {
        None => {
            let out: Vec<String> = Vec::new();
            proof {
                assert(out.deep_view() =~= Seq::<Seq<char>>::empty());
            }
            Some(out)
        },
        Some(v) => match v {
            JsonValue::Arr(items) => list_strings(items),
            _ => None,
        },
    }
}

// ------------------------------------------------------------------
// The trusted bridge to serde_json. Parsing and rendering of JSON text is
// the one job this library hands to an outside crate; everything after the
// bridge works on `JsonValue` and is verified.
// ------------------------------------------------------------------
#[verifier::external_type_specification]
#[verifier::external_body]
pub struct ExValue(Value);

/// The model of what parsing yields on `bytes`: the `serde_json::from_slice`
/// tree rebuilt as the library's own value type, or nothing where the bytes
/// are not well-formed JSON. The result depends on the bytes alone.
pub uninterp spec fn json_of(bytes: Seq<u8>) -> Option<SpecJson>;

/// What rendering yields on the model of a value: the `serde_json::to_vec`
/// text of its `serde_json` image. The result depends on the model alone.
pub uninterp spec fn json_text_of(v: SpecJson) -> Seq<u8>;

/// Relies on `serde_json::from_slice`, which parses deterministically from
/// the bytes alone; the parsed tree is rebuilt by `value_to_json`.
#[verifier::external_body]
pub fn parse_json(bytes: &[u8]) -> (r: Option<JsonValue>)
    ensures
        match r {
            Some(v) => json_of(bytes@) == Some(v@),
            None => json_of(bytes@) is None,
        },
{
    serde_json::from_slice::<Value>(bytes).ok().map(value_to_json)
}

/// Relies on `serde_json::to_vec`, which renders deterministically from the
/// tree alone (object keys are kept sorted by `serde_json`'s map), after
/// `json_to_value` rebuilds the tree; two values with one model render alike.
#[verifier::external_body]
pub fn render_json(v: &JsonValue) -> (r: Vec<u8>)
    ensures
        r@ == json_text_of(v@),
{
    serde_json::to_vec(&json_to_value(v)).unwrap_or_default()
}

/// Rebuilds a `serde_json` tree as the library's own value type, one variant
/// at a time; integers keep their value, any other number its decimal text.
#[verifier::external_body]
fn value_to_json(v: Value) -> JsonValue {
    match v {
        Value::Null => JsonValue::Null,
        Value::Bool(b) => JsonValue::Bool(b),
        Value::Number(n) => JsonValue::Num(match (n.as_u64(), n.as_i64()) {
            (Some(u), _) => JsonNum::UInt(u),
            (None, Some(i)) => JsonNum::Int(i),
            (None, None) => JsonNum::Dec(n.to_string()),
        }),
        Value::String(s) => JsonValue::Str(s),
        Value::Array(a) => JsonValue::Arr(a.into_iter().map(value_to_json).collect()),
        Value::Object(m) => JsonValue::Obj(m.into_iter().map(|(k, w)| (k, value_to_json(w))).collect()),
    }
}

/// Rebuilds one of the library's values as a `serde_json` tree, one variant
/// at a time; a decimal text is re-read as a bare JSON number.
#[verifier::external_body]
fn json_to_value(v: &JsonValue) -> Value {
    match v {
        JsonValue::Null => Value::Null,
        JsonValue::Bool(b) => Value::Bool(*b),
        JsonValue::Num(JsonNum::UInt(u)) => Value::from(*u),
        JsonValue::Num(JsonNum::Int(i)) => Value::from(*i),
        JsonValue::Num(JsonNum::Dec(s)) => serde_json::from_str::<Number>(s).map(Value::Number).unwrap_or(Value::Null),
        JsonValue::Str(s) => Value::String(s.clone()),
        JsonValue::Arr(a) => Value::Array(a.iter().map(json_to_value).collect()),
        JsonValue::Obj(f) => Value::Object(f.iter().map(|(k, w)| (k.clone(), json_to_value(w))).collect()),
    }
}

} // verus!
