//! A JSON value model: the plain values that the server reads and writes.
use vstd::prelude::*;

verus! {

/// The mathematical model of a JSON number.
pub enum NumberModel {
    PosInt(u64),
    NegInt(i64),
    Float(Seq<char>),
}

/// The mathematical model of a JSON value: strings are sequences of
/// characters, objects are sequences of key/value pairs in order.
pub enum Json {
    Null,
    Bool(bool),
    Number(NumberModel),
    Str(Seq<char>),
    Array(Seq<Json>),
    Object(Seq<(Seq<char>, Json)>),
}

/// A JSON number: a non-negative integer, a negative integer, or any other
/// number, held by its decimal text.
#[derive(Debug, PartialEq)]
pub enum JsonNumber {
    PosInt(u64),
    NegInt(i64),
    Float(String),
}

/// A JSON value. An object holds its members in order; a lookup by key
/// finds the first member with that key.
#[derive(Debug, PartialEq)]
pub enum JsonValue {
    Null,
    Bool(bool),
    Number(JsonNumber),
    String(String),
    Array(Vec<JsonValue>),
    Object(Vec<(String, JsonValue)>),
}

impl JsonNumber {
    pub open spec fn model(&self) -> NumberModel {
        match self {
            JsonNumber::PosInt(n) => NumberModel::PosInt(*n),
            JsonNumber::NegInt(n) => NumberModel::NegInt(*n),
            JsonNumber::Float(t) => NumberModel::Float(t@),
        }
    }
}

/// The models of a sequence of values.
pub open spec fn models_of(items: Seq<JsonValue>) -> Seq<Json>
    decreases items,
{
    if items.len() == 0 {
        Seq::empty()
    } else {
        models_of(items.drop_last()).push(model_of(items.last()))
    }
}

/// The models of a sequence of object members.
pub open spec fn fields_of(fields: Seq<(String, JsonValue)>) -> Seq<(Seq<char>, Json)>
    decreases fields,
{
    if fields.len() == 0 {
        Seq::empty()
    } else {
        fields_of(fields.drop_last()).push((fields.last().0@, model_of(fields.last().1)))
    }
}

/// The model of a value.
pub open spec fn model_of(v: JsonValue) -> Json
    decreases v,
{
    match v {
        JsonValue::Null => Json::Null,
        JsonValue::Bool(b) => Json::Bool(b),
        JsonValue::Number(n) => Json::Number(n.model()),
        JsonValue::String(s) => Json::Str(s@),
        JsonValue::Array(items) => Json::Array(models_of(items@)),
        JsonValue::Object(fields) => Json::Object(fields_of(fields@)),
    }
}

impl View for JsonValue {
    type V = Json;

    open spec fn view(&self) -> Json {
        model_of(*self)
    }
}

pub proof fn lemma_models_of(items: Seq<JsonValue>)
    ensures
        models_of(items).len() == items.len(),
        forall|i: int| 0 <= i < items.len() ==> #[trigger] models_of(items)[i] == model_of(items[i]),
    decreases items.len(),
{
    if items.len() > 0 {
        lemma_models_of(items.drop_last());
    }
}

pub proof fn lemma_fields_of(fields: Seq<(String, JsonValue)>)
    ensures
        fields_of(fields).len() == fields.len(),
        forall|i: int|
            0 <= i < fields.len() ==> #[trigger] fields_of(fields)[i] == (
                fields[i].0@,
                model_of(fields[i].1),
            ),
    decreases fields.len(),
{
    if fields.len() > 0 {
        lemma_fields_of(fields.drop_last());
    }
}

/// The value of the first member named `key`, if any.
pub open spec fn lookup(fields: Seq<(Seq<char>, Json)>, key: Seq<char>) -> Option<Json>
    decreases fields.len(),
{
    if fields.len() == 0 {
        None
    } else if fields[0].0 == key {
        Some(fields[0].1)
    } else {
        lookup(fields.drop_first(), key)
    }
}

/// `v[key]` where `v` is an object; `None` for a missing key or a value
/// that is not an object.
pub open spec fn json_get(v: Json, key: Seq<char>) -> Option<Json> {
    match v {
        Json::Object(fields) => lookup(fields, key),
        _ => None,
    }
}

/// The text of a string value.
pub open spec fn json_str(v: Json) -> Option<Seq<char>> {
    match v {
        Json::Str(s) => Some(s),
        _ => None,
    }
}

/// A number that is a non-negative integer.
pub open spec fn json_u64(v: Json) -> Option<u64> {
    match v {
        Json::Number(NumberModel::PosInt(n)) => Some(n),
        _ => None,
    }
}

/// A boolean value.
pub open spec fn json_bool(v: Json) -> Option<bool> {
    match v {
        Json::Bool(b) => Some(b),
        _ => None,
    }
}

/// The number of elements of an array, 0 for any other value.
pub open spec fn json_array_len(v: Json) -> nat {
    match v {
        Json::Array(items) => items.len(),
        _ => 0,
    }
}

/// `opt.and_then(json_str)`.
pub open spec fn get_str(v: Json, key: Seq<char>) -> Option<Seq<char>> {
    match json_get(v, key) {
        Some(x) => json_str(x),
        None => None,
    }
}

/// `v[key]` as a non-negative integer.
pub open spec fn get_u64(v: Json, key: Seq<char>) -> Option<u64> {
    match json_get(v, key) {
        Some(x) => json_u64(x),
        None => None,
    }
}

/// `v[key]` as a boolean.
pub open spec fn get_bool(v: Json, key: Seq<char>) -> Option<bool> {
    match json_get(v, key) {
        Some(x) => json_bool(x),
        None => None,
    }
}

/// `v[key]`, or null when it is missing.
pub open spec fn get_or_null(v: Json, key: Seq<char>) -> Json {
    match json_get(v, key) {
        Some(x) => x,
        None => Json::Null,
    }
}

/// `v[key]` as a string, or `default`.
pub open spec fn get_str_or(v: Json, key: Seq<char>, default: Seq<char>) -> Seq<char> {
    match get_str(v, key) {
        Some(s) => s,
        None => default,
    }
}

/// The model of a number that counts something.
pub open spec fn count_json(n: nat) -> Json {
    Json::Number(NumberModel::PosInt(n as u64))
}

/// An owned copy of a string slice.
pub fn owned(s: &str) -> (r: String)
    ensures
        r@ == s@,
{
    s.to_owned()
}

/// A string value holding `s`.
pub fn json_string(s: &str) -> (r: JsonValue)
    ensures
        r@ == Json::Str(s@),
{
    JsonValue::String(s.to_owned())
}

/// A count, as a JSON number.
pub fn json_count(n: usize) -> (r: JsonValue)
    ensures
        r@ == count_json(n as nat),
{
    JsonValue::Number(JsonNumber::PosInt(n as u64))
}

/// An object with the given members.
pub fn object(fields: Vec<(String, JsonValue)>) -> (r: JsonValue)
    ensures
        r@ == Json::Object(fields_of(fields@)),
        r == JsonValue::Object(fields),
{
    JsonValue::Object(fields)
}

impl JsonValue {
    /// The member named `key` of an object (`Value::get`).
    pub fn get(&self, key: &str) -> (r: Option<&JsonValue>)
        ensures
            match r {
                Some(x) => json_get(self@, key@) == Some(x@),
                None => json_get(self@, key@) is None,
            },
    {
        match self {
            JsonValue::Object(fields) => {
                proof {
                    lemma_fields_of(fields@);
                }
                let ghost fs = fields_of(fields@);
                let mut i: usize = 0;
                assert(fs.skip(0) =~= fs);
                while i < fields.len()
                    invariant
                        0 <= i <= fields.len(),
                        fs == fields_of(fields@),
                        self@ == Json::Object(fs),
                        fs.len() == fields.len(),
                        forall|j: int| 0 <= j < fields.len() ==> #[trigger] fs[j] == (fields@[j].0@, model_of(fields@[j].1)),
                        lookup(fs, key@) == lookup(fs.skip(i as int), key@),
                    decreases fields.len() - i,
                {
                    assert(fs.skip(i as int)[0] == fs[i as int]);
                    if crate::text::str_eq(fields[i].0.as_str(), key) {
                        assert(lookup(fs.skip(i as int), key@) == Some(fs[i as int].1));
                        return Some(&fields[i].1);
                    }
                    assert(fs.skip(i as int).drop_first() =~= fs.skip(i + 1));
                    i = i + 1;
                }
                assert(fs.skip(i as int).len() == 0);
                None
            }
            _ => None,
        }
    }
}


impl JsonValue {
    /// The text of a string value (`Value::as_str`).
    pub fn as_str(&self) -> (r: Option<&str>)
        ensures
            match r {
                Some(t) => json_str(self@) == Some(t@),
                None => json_str(self@) is None,
            },
    {
        match self {
            JsonValue::String(s) => Some(s.as_str()),
            _ => None,
        }
    }

    /// A non-negative integer (`Value::as_u64`).
    pub fn as_u64(&self) -> (r: Option<u64>)
        ensures
            r == json_u64(self@),
    {
        match self {
            JsonValue::Number(JsonNumber::PosInt(n)) => Some(*n),
            _ => None,
        }
    }

    /// A boolean (`Value::as_bool`).
    pub fn as_bool(&self) -> (r: Option<bool>)
        ensures
            r == json_bool(self@),
    {
        match self {
            JsonValue::Bool(b) => Some(*b),
            _ => None,
        }
    }

    /// The length of an array, 0 for any other value
    /// (`as_array().map(|a| a.len()).unwrap_or(0)`).
    pub fn array_len(&self) -> (r: usize)
        ensures
            r == json_array_len(self@),
    {
        match self {
            JsonValue::Array(items) => {
                proof {
                    lemma_models_of(items@);
                }
                items.len()
            }
            _ => 0,
        }
    }

    /// `self[key]` as a string.
    pub fn get_str(&self, key: &str) -> (r: Option<&str>)
        ensures
            match r {
                Some(t) => get_str(self@, key@) == Some(t@),
                None => get_str(self@, key@) is None,
            },
    {
        match self.get(key) {
            Some(v) => v.as_str(),
            None => None,
        }
    }

    /// `self[key]` as a non-negative integer.
    pub fn get_u64(&self, key: &str) -> (r: Option<u64>)
        ensures
            r == get_u64(self@, key@),
    {
        match self.get(key) {
            Some(v) => v.as_u64(),
            None => None,
        }
    }

    /// `self[key]` as a boolean.
    pub fn get_bool(&self, key: &str) -> (r: Option<bool>)
        ensures
            r == get_bool(self@, key@),
    {
        match self.get(key) {
            Some(v) => v.as_bool(),
            None => None,
        }
    }

    /// A copy of `self[key]`, or null when it is missing
    /// (`get(key).cloned().unwrap_or(Value::Null)`).
    pub fn get_or_null(&self, key: &str) -> (r: JsonValue)
        ensures
            r@ == get_or_null(self@, key@),
    {
        match self.get(key) {
            Some(v) => v.deep_copy(),
            None => JsonValue::Null,
        }
    }

    /// A copy of this value with the same model.
    #[verifier::loop_isolation(false)]
    pub fn deep_copy(&self) -> (r: JsonValue)
        ensures
            r@ == self@,
        decreases self,
    {
        match self {
            JsonValue::Null => JsonValue::Null,
            JsonValue::Bool(b) => JsonValue::Bool(*b),
            JsonValue::Number(n) => JsonValue::Number(
                match n {
                    JsonNumber::PosInt(x) => JsonNumber::PosInt(*x),
                    JsonNumber::NegInt(x) => JsonNumber::NegInt(*x),
                    JsonNumber::Float(t) => JsonNumber::Float(t.clone()),
                },
            ),
            JsonValue::String(s) => JsonValue::String(s.clone()),
            JsonValue::Array(items) => {
                let mut out: Vec<JsonValue> = Vec::new();
                let mut i: usize = 0;
                while i < items.len()
                    invariant
                        0 <= i <= items.len(),
                        out.len() == i,
                        forall|j: int| 0 <= j < i ==> model_of(#[trigger] out@[j]) == model_of(items@[j]),
                    decreases items.len() - i,
                {
                    proof {
                        assert(decreases_to!(self => items@[i as int]));
                    }
                    let c = items[i].deep_copy();
                    out.push(c);
                    i = i + 1;
                }
                proof {
                    lemma_models_of(items@);
                    lemma_models_of(out@);
                    assert(models_of(out@) =~= models_of(items@));
                }
                JsonValue::Array(out)
            }
            JsonValue::Object(fields) => {
                let mut out: Vec<(String, JsonValue)> = Vec::new();
                let mut i: usize = 0;
                while i < fields.len()
                    invariant
                        0 <= i <= fields.len(),
                        out.len() == i,
                        forall|j: int| 0 <= j < i ==> (#[trigger] out@[j]).0@ == fields@[j].0@ && model_of(out@[j].1) == model_of(fields@[j].1),
                    decreases fields.len() - i,
                {
                    let k = fields[i].0.clone();
                    proof {
                        assert(decreases_to!(self => fields@[i as int].1));
                    }
                    let c = fields[i].1.deep_copy();
                    out.push((k, c));
                    i = i + 1;
                }
                proof {
                    lemma_fields_of(fields@);
                    lemma_fields_of(out@);
                    assert(fields_of(out@) =~= fields_of(fields@));
                }
                JsonValue::Object(out)
            }
        }
    }
}

/// An object with one member, in the given order.
pub fn object_one(k1: &str, v1: JsonValue) -> (r: JsonValue)
    ensures
        r@ == Json::Object(seq![(k1@, v1@)]),
{
    let ghost want = seq![(k1@, v1@)];
    let fields = vec![(k1.to_owned(), v1)];
    proof {
        lemma_fields_of(fields@);
        assert(fields_of(fields@) =~= want);
    }
    JsonValue::Object(fields)
}

/// An object with two members, in the given order.
pub fn object_two(k1: &str, v1: JsonValue, k2: &str, v2: JsonValue) -> (r: JsonValue)
    ensures
        r@ == Json::Object(seq![(k1@, v1@), (k2@, v2@)]),
{
    let ghost want = seq![(k1@, v1@), (k2@, v2@)];
    let fields = vec![(k1.to_owned(), v1), (k2.to_owned(), v2)];
    proof {
        lemma_fields_of(fields@);
        assert(fields_of(fields@) =~= want);
    }
    JsonValue::Object(fields)
}

/// An object with three members, in the given order.
pub fn object_three(k1: &str, v1: JsonValue, k2: &str, v2: JsonValue, k3: &str, v3: JsonValue) -> (r: JsonValue)
    ensures
        r@ == Json::Object(seq![(k1@, v1@), (k2@, v2@), (k3@, v3@)]),
{
    let ghost want = seq![(k1@, v1@), (k2@, v2@), (k3@, v3@)];
    let fields = vec![(k1.to_owned(), v1), (k2.to_owned(), v2), (k3.to_owned(), v3)];
    proof {
        lemma_fields_of(fields@);
        assert(fields_of(fields@) =~= want);
    }
    JsonValue::Object(fields)
}

/// An object with four members, in the given order.
pub fn object_four(k1: &str, v1: JsonValue, k2: &str, v2: JsonValue, k3: &str, v3: JsonValue, k4: &str, v4: JsonValue) -> (r: JsonValue)
    ensures
        r@ == Json::Object(seq![(k1@, v1@), (k2@, v2@), (k3@, v3@), (k4@, v4@)]),
{
    let ghost want = seq![(k1@, v1@), (k2@, v2@), (k3@, v3@), (k4@, v4@)];
    let fields = vec![(k1.to_owned(), v1), (k2.to_owned(), v2), (k3.to_owned(), v3), (k4.to_owned(), v4)];
    proof {
        lemma_fields_of(fields@);
        assert(fields_of(fields@) =~= want);
    }
    JsonValue::Object(fields)
}

/// An object with five members, in the given order.
pub fn object_five(k1: &str, v1: JsonValue, k2: &str, v2: JsonValue, k3: &str, v3: JsonValue, k4: &str, v4: JsonValue, k5: &str, v5: JsonValue) -> (r: JsonValue)
    ensures
        r@ == Json::Object(seq![(k1@, v1@), (k2@, v2@), (k3@, v3@), (k4@, v4@), (k5@, v5@)]),
{
    let ghost want = seq![(k1@, v1@), (k2@, v2@), (k3@, v3@), (k4@, v4@), (k5@, v5@)];
    let fields = vec![(k1.to_owned(), v1), (k2.to_owned(), v2), (k3.to_owned(), v3), (k4.to_owned(), v4), (k5.to_owned(), v5)];
    proof {
        lemma_fields_of(fields@);
        assert(fields_of(fields@) =~= want);
    }
    JsonValue::Object(fields)
}

/// An object with six members, in the given order.
pub fn object_six(k1: &str, v1: JsonValue, k2: &str, v2: JsonValue, k3: &str, v3: JsonValue, k4: &str, v4: JsonValue, k5: &str, v5: JsonValue, k6: &str, v6: JsonValue) -> (r: JsonValue)
    ensures
        r@ == Json::Object(seq![(k1@, v1@), (k2@, v2@), (k3@, v3@), (k4@, v4@), (k5@, v5@), (k6@, v6@)]),
{
    let ghost want = seq![(k1@, v1@), (k2@, v2@), (k3@, v3@), (k4@, v4@), (k5@, v5@), (k6@, v6@)];
    let fields = vec![(k1.to_owned(), v1), (k2.to_owned(), v2), (k3.to_owned(), v3), (k4.to_owned(), v4), (k5.to_owned(), v5), (k6.to_owned(), v6)];
    proof {
        lemma_fields_of(fields@);
        assert(fields_of(fields@) =~= want);
    }
    JsonValue::Object(fields)
}

/// An array with one element, in the given order.
pub fn array_one(v1: JsonValue) -> (r: JsonValue)
    ensures
        r@ == Json::Array(seq![v1@]),
{
    let ghost want = seq![v1@];
    let items = vec![v1];
    proof {
        lemma_models_of(items@);
        assert(models_of(items@) =~= want);
    }
    JsonValue::Array(items)
}

/// An array with two elements, in the given order.
pub fn array_two(v1: JsonValue, v2: JsonValue) -> (r: JsonValue)
    ensures
        r@ == Json::Array(seq![v1@, v2@]),
{
    let ghost want = seq![v1@, v2@];
    let items = vec![v1, v2];
    proof {
        lemma_models_of(items@);
        assert(models_of(items@) =~= want);
    }
    JsonValue::Array(items)
}

/// An array with three elements, in the given order.
pub fn array_three(v1: JsonValue, v2: JsonValue, v3: JsonValue) -> (r: JsonValue)
    ensures
        r@ == Json::Array(seq![v1@, v2@, v3@]),
{
    let ghost want = seq![v1@, v2@, v3@];
    let items = vec![v1, v2, v3];
    proof {
        lemma_models_of(items@);
        assert(models_of(items@) =~= want);
    }
    JsonValue::Array(items)
}

} // verus!
