//! A value model of the JSON documents the backend protocol exchanges.
//!
//! The wire level (HTTP bodies, text) is the unverified shell's business;
//! the shell converts each decoded document into a [`Json`] value, and the
//! functions here read the fields the protocol depends on: the session
//! identifier of a new-session response, the window handle or handle list
//! of a window response, and the result value of a script execution.
use vstd::prelude::*;
use crate::error::Error;

verus! {

/// The mathematical shape of a JSON value.
pub enum JsonV {
    Null,
    Bool(bool),
    Int(i64),
    Str(Seq<char>),
    Arr(Seq<JsonV>),
    Obj(Seq<(Seq<char>, JsonV)>),
}

/// A JSON value as plain data. Numbers outside the signed 64-bit range and
/// non-integral numbers do not occur in the protocol's documents.
pub enum Json {
    Null,
    Bool(bool),
    Int(i64),
    Str(String),
    Arr(Vec<Json>),
    Obj(Vec<(String, Json)>),
}

impl Json {
    /// The shape of this value.
    pub closed spec fn v(self) -> JsonV
        decreases self,
    {
        match self {
            Json::Null => JsonV::Null,
            Json::Bool(b) => JsonV::Bool(b),
            Json::Int(n) => JsonV::Int(n),
            Json::Str(s) => JsonV::Str(s@),
            Json::Arr(items) => JsonV::Arr(
                Seq::new(
                    items@.len(),
                    |i: int|
                        if 0 <= i < items@.len() {
                            items[i].v()
                        } else {
                            JsonV::Null
                        },
                ),
            ),
            Json::Obj(fields) => JsonV::Obj(
                Seq::new(
                    fields@.len(),
                    |i: int|
                        if 0 <= i < fields@.len() {
                            (fields[i].0@, fields[i].1.v())
                        } else {
                            (Seq::empty(), JsonV::Null)
                        },
                ),
            ),
        }
    }
}

impl View for Json {
    type V = JsonV;

    open spec fn view(&self) -> JsonV {
        self.v()
    }
}

/// The value under `key` in a field list: the first binding wins.
pub open spec fn lookup_fields(fields: Seq<(Seq<char>, JsonV)>, key: Seq<char>) -> Option<JsonV>
    decreases fields.len(),
{
    if fields.len() == 0 {
        None
    } else if fields[0].0 == key {
        Some(fields[0].1)
    } else {
        lookup_fields(fields.skip(1), key)
    }
}

/// The value under `key`, if `v` is an object that has the field.
pub open spec fn field_of(v: JsonV, key: Seq<char>) -> Option<JsonV> {
    match v {
        JsonV::Obj(fields) => lookup_fields(fields, key),
        _ => None,
    }
}

/// Skipping past bindings that do not match leaves the lookup unchanged.
proof fn lemma_lookup_skips_mismatches(fields: Seq<(Seq<char>, JsonV)>, key: Seq<char>, i: int)
    requires
        0 <= i <= fields.len(),
        forall|k: int| 0 <= k < i ==> (#[trigger] fields[k]).0 != key,
    ensures
        lookup_fields(fields, key) == lookup_fields(fields.skip(i), key),
    decreases i,
{
    if i > 0 {
        assert(fields.skip(i - 1).skip(1) =~= fields.skip(i));
        lemma_lookup_skips_mismatches(fields, key, i - 1);
    } else {
        assert(fields.skip(0) =~= fields);
    }
}

impl Json {
    /// The field named `key`, if this value is an object that has one.
    pub fn get<'a>(&'a self, key: &String) -> (r: Option<&'a Json>)
        ensures
            match r {
                Some(j) => field_of(self@, key@) == Some(j@),
                None => field_of(self@, key@) is None,
            },
    {
        match self {
            Json::Obj(fields) => {
                let ghost gfields = self@->Obj_0;
                let mut i: usize = 0;
                while i < fields.len()
                    invariant
                        0 <= i <= fields.len(),
                        gfields == self@->Obj_0,
                        self@ is Obj,
                        gfields.len() == fields@.len(),
                        forall|k: int|
                            0 <= k < fields@.len() ==> #[trigger] gfields[k] == (
                            fields@[k].0@,
                            fields@[k].1@,
                            ),
                        forall|k: int| 0 <= k < i ==> (#[trigger] gfields[k]).0 != key@,
                    decreases fields.len() - i,
                {
                    let pair = &fields[i];
                    if pair.0 == *key {
                        proof {
                            lemma_lookup_skips_mismatches(gfields, key@, i as int);
                            assert(gfields.skip(i as int)[0] == gfields[i as int]);
                        }
                        return Some(&pair.1);
                    }
                    i = i + 1;
                }
                proof {
                    lemma_lookup_skips_mismatches(gfields, key@, gfields.len() as int);
                    assert(gfields.skip(gfields.len() as int).len() == 0);
                }
                None
            },
            _ => None,
        }
    }

    /// A deep copy with the same shape.
    pub fn duplicate(&self) -> (r: Json)
        ensures
            r@ == self@,
        decreases self,
    {
        match self {
            Json::Null => Json::Null,
            Json::Bool(b) => Json::Bool(*b),
            Json::Int(n) => Json::Int(*n),
            Json::Str(s) => Json::Str(s.clone()),
            Json::Arr(items) => {
                let mut out: Vec<Json> = Vec::new();
                let mut i: usize = 0;
                while i < items.len()
                    invariant
                        0 <= i <= items.len(),
                        out@.len() == i,
                        *self == Json::Arr(*items),
                        forall|k: int| 0 <= k < i ==> (#[trigger] out@[k])@ == items@[k]@,
                    decreases items.len() - i,
                {
                    proof {
                        assert(decreases_to!(*self => self->Arr_0));
                        assert(decreases_to!(*items => items@));
                        assert(decreases_to!(items@ => items@[i as int]));
                        assert(decreases_to!(*self => items@[i as int]));
                    }
                    let copied = items[i].duplicate();
                    out.push(copied);
                    i = i + 1;
                }
                let r = Json::Arr(out);
                proof {
                    assert(r@->Arr_0 =~= self@->Arr_0);
                }
                r
            },
            Json::Obj(fields) => {
                let mut out: Vec<(String, Json)> = Vec::new();
                let mut i: usize = 0;
                while i < fields.len()
                    invariant
                        0 <= i <= fields.len(),
                        out@.len() == i,
                        *self == Json::Obj(*fields),
                        forall|k: int|
                            0 <= k < i ==> (#[trigger] out@[k]).0@ == fields@[k].0@ && out@[k].1@
                                == fields@[k].1@,
                    decreases fields.len() - i,
                {
                    proof {
                        assert(decreases_to!(*self => self->Obj_0));
                        assert(decreases_to!(*fields => fields@));
                        assert(decreases_to!(fields@ => fields@[i as int]));
                        assert(decreases_to!(fields@[i as int] => fields@[i as int].1));
                        assert(decreases_to!(*self => fields@[i as int].1));
                    }
                    let copied = fields[i].1.duplicate();
                    let name = fields[i].0.clone();
                    out.push((name, copied));
                    i = i + 1;
                }
                let r = Json::Obj(out);
                proof {
                    assert(r@->Obj_0 =~= self@->Obj_0);
                }
                r
            },
        }
    }

    /// This value as a signed integer, the shape a numeric script result is
    /// decoded into.
    pub fn as_int(&self) -> (r: Result<i64, Error>)
        ensures
            match r {
                Ok(n) => self@ == JsonV::Int(n),
                Err(e) => !(self@ is Int) && e == Error::DecodeFailed,
            },
    {
        match self {
            Json::Int(n) => Ok(*n),
            _ => Err(Error::DecodeFailed),
        }
    }

    /// This value as a boolean.
    pub fn as_bool(&self) -> (r: Result<bool, Error>)
        ensures
            match r {
                Ok(b) => self@ == JsonV::Bool(b),
                Err(e) => !(self@ is Bool) && e == Error::DecodeFailed,
            },
    {
        match self {
            Json::Bool(b) => Ok(*b),
            _ => Err(Error::DecodeFailed),
        }
    }

    /// This value as text.
    pub fn as_text(&self) -> (r: Result<String, Error>)
        ensures
            match r {
                Ok(s) => self@ == JsonV::Str(s@),
                Err(e) => !(self@ is Str) && e == Error::DecodeFailed,
            },
    {
        match self {
            Json::Str(s) => Ok(s.clone()),
            _ => Err(Error::DecodeFailed),
        }
    }

    /// This value as the unit shape: only JSON null decodes into it.
    pub fn as_unit(&self) -> (r: Result<(), Error>)
        ensures
            match r {
                Ok(u) => self@ is Null,
                Err(e) => !(self@ is Null) && e == Error::DecodeFailed,
            },
    {
        match self {
            Json::Null => Ok(()),
            _ => Err(Error::DecodeFailed),
        }
    }
}

/// The command document that asks the backend's devtools channel to run
/// `script` on every new document: how automation suppression is installed.
/// The answer to it is read by [`cdp_ok_of_response`].
pub fn cdp_script_params(script: String) -> (r: Json)
    ensures
        r@ == JsonV::Obj(
            seq![
                ("cmd"@, JsonV::Str("Page.addScriptToEvaluateOnNewDocument"@)),
                ("params"@, JsonV::Obj(seq![("source"@, JsonV::Str(script@))])),
            ],
        ),
{
    let params = Json::Obj(vec![("source".to_owned(), Json::Str(script))]);
    let r = Json::Obj(
        vec![
            ("cmd".to_owned(), Json::Str("Page.addScriptToEvaluateOnNewDocument".to_owned())),
            ("params".to_owned(), params),
        ],
    );
    proof {
        reveal_with_fuel(Json::v, 4);
        assert(r@->Obj_0[1].1->Obj_0 =~= seq![("source"@, JsonV::Str(script@))]);
        assert(r@->Obj_0 =~= seq![
            ("cmd"@, JsonV::Str("Page.addScriptToEvaluateOnNewDocument"@)),
            ("params"@, JsonV::Obj(seq![("source"@, JsonV::Str(script@))])),
        ]);
    }
    r
}

/// The session identifier of a new-session response: the string under
/// `value.sessionId`, if the response has that shape.
pub open spec fn spec_session_id(resp: JsonV) -> Option<Seq<char>> {
    match field_of(resp, "value"@) {
        Some(val) => match field_of(val, "sessionId"@) {
            Some(JsonV::Str(s)) => Some(s),
            _ => None,
        },
        None => None,
    }
}

/// The window handle of a focused-window response: the string under
/// `value`, if the response has that shape.
pub open spec fn spec_window_handle(resp: JsonV) -> Option<Seq<char>> {
    match field_of(resp, "value"@) {
        Some(JsonV::Str(s)) => Some(s),
        _ => None,
    }
}

/// Whether every element is a string.
pub open spec fn all_strings(items: Seq<JsonV>) -> bool {
    forall|i: int| 0 <= i < items.len() ==> (#[trigger] items[i]) is Str
}

/// The strings of a sequence of string values.
pub open spec fn string_views(items: Seq<JsonV>) -> Seq<Seq<char>> {
    items.map_values(|j: JsonV| j->Str_0)
}

/// The handle list of an enumeration response: the strings under `value`,
/// if the response carries an array of strings there.
pub open spec fn spec_window_handles(resp: JsonV) -> Option<Seq<Seq<char>>> {
    match field_of(resp, "value"@) {
        Some(JsonV::Arr(items)) => if all_strings(items) {
            Some(string_views(items))
        } else {
            None
        },
        _ => None,
    }
}

/// The result of a script execution: the value under `value`, however the
/// field is shaped — a response without the field carries no result at all.
pub open spec fn spec_script_value(resp: JsonV) -> Option<JsonV> {
    field_of(resp, "value"@)
}

/// Whether an automation-suppression response reports a rejection.
pub open spec fn spec_cdp_rejected(resp: JsonV) -> bool {
    field_of(resp, "error"@) is Some
}

/// Reads the session identifier out of a new-session response; a response
/// of any other shape is the protocol violation `IncorrectSessionId`.
pub fn session_id_of_response(resp: &Json) -> (r: Result<String, Error>)
    ensures
        match r {
            Ok(s) => spec_session_id(resp@) == Some(s@),
            Err(e) => spec_session_id(resp@) is None && e == Error::IncorrectSessionId,
        },
{
    let value_key: String = "value".to_owned();
    let sid_key: String = "sessionId".to_owned();
    match resp.get(&value_key) {
        Some(val) => match val.get(&sid_key) {
            Some(Json::Str(s)) => Ok(s.clone()),
            _ => Err(Error::IncorrectSessionId),
        },
        None => Err(Error::IncorrectSessionId),
    }
}

/// Reads the focused window's handle out of a window response; a response
/// of any other shape is the protocol violation `IncorrectWindowHandle`.
pub fn handle_of_response(resp: &Json) -> (r: Result<String, Error>)
    ensures
        match r {
            Ok(s) => spec_window_handle(resp@) == Some(s@),
            Err(e) => spec_window_handle(resp@) is None && e == Error::IncorrectWindowHandle,
        },
{
    let value_key: String = "value".to_owned();
    match resp.get(&value_key) {
        Some(Json::Str(s)) => Ok(s.clone()),
        _ => Err(Error::IncorrectWindowHandle),
    }
}

/// Reads the handle list out of an enumeration response; a response of any
/// other shape is the protocol violation `IncorrectWindowHandles`.
pub fn handles_of_response(resp: &Json) -> (r: Result<Vec<String>, Error>)
    ensures
        match r {
            Ok(hs) => spec_window_handles(resp@) == Some(hs.deep_view()),
            Err(e) => spec_window_handles(resp@) is None && e == Error::IncorrectWindowHandles,
        },
{
    let value_key: String = "value".to_owned();
    match resp.get(&value_key) {
        Some(val) => match val {
            Json::Arr(items) => {
                let ghost gitems = val@->Arr_0;
                let mut out: Vec<String> = Vec::new();
                let mut i: usize = 0;
                while i < items.len()
                    invariant
                        0 <= i <= items.len(),
                        *val == Json::Arr(*items),
                        field_of(resp@, "value"@) == Some(val@),
                        gitems == val@->Arr_0,
                        gitems.len() == items@.len(),
                        forall|k: int| 0 <= k < items@.len() ==> #[trigger] gitems[k] == items@[k]@,
                        out@.len() == i,
                        forall|k: int| 0 <= k < i ==> (#[trigger] gitems[k]) is Str,
                        forall|k: int| 0 <= k < i ==> (#[trigger] out@[k])@ == gitems[k]->Str_0,
                    decreases items.len() - i,
                {
                    let item = &items[i];
                    match item {
                        Json::Str(s) => {
                            out.push(s.clone());
                        },
                        _ => {
                            proof {
                                assert(gitems[i as int] == item@);
                                assert(!(gitems[i as int] is Str));
                                assert(!all_strings(gitems));
                            }
                            return Err(Error::IncorrectWindowHandles);
                        },
                    }
                    i = i + 1;
                }
                proof {
                    assert(all_strings(gitems));
                    assert(out.deep_view() =~= string_views(gitems));
                }
                Ok(out)
            },
            _ => Err(Error::IncorrectWindowHandles),
        },
        None => Err(Error::IncorrectWindowHandles),
    }
}

/// Reads the result value out of a script-execution response; a response
/// without the result field, however the rest is shaped, is
/// `UnexpectedResponse` — distinct from a result that is JSON null.
pub fn script_value_of_response(resp: &Json) -> (r: Result<Json, Error>)
    ensures
        match r {
            Ok(v) => spec_script_value(resp@) == Some(v@),
            Err(e) => spec_script_value(resp@) is None && e == Error::UnexpectedResponse,
        },
{
    let value_key: String = "value".to_owned();
    match resp.get(&value_key) {
        Some(val) => Ok(val.duplicate()),
        None => Err(Error::UnexpectedResponse),
    }
}

/// Reads an automation-suppression response: a response that carries an
/// `error` field is the rejection `CdpCommandFailed`.
pub fn cdp_ok_of_response(resp: &Json) -> (r: Result<(), Error>)
    ensures
        match r {
            Ok(u) => !spec_cdp_rejected(resp@),
            Err(e) => spec_cdp_rejected(resp@) && e == Error::CdpCommandFailed,
        },
{
    let error_key: String = "error".to_owned();
    match resp.get(&error_key) {
        Some(val) => Err(Error::CdpCommandFailed),
        None => Ok(()),
    }
}

} // verus!
