use vstd::prelude::*;

use crate::json::{lookup, member, push_member, JsonValue};

verus! {

/// A request for streamed speech. The voice settings are the settings object as the
/// caller encoded it; the optional members carry continuity across segments of one
/// narration.
pub struct TTSRequest {
    pub voice_id: String,
    pub text: String,
    pub model_id: String,
    pub voice_settings: JsonValue,
    pub seed: Option<u64>,
    pub previous_text: Option<String>,
    pub previous_request_ids: Option<Vec<String>>,
    pub next_request_ids: Option<Vec<String>>,
    pub next_request_text: Option<String>,
    pub download_directory: String,
}

/// `v` is the string `t`.
pub open spec fn is_text(v: Option<JsonValue>, t: Seq<char>) -> bool {
    v matches Some(JsonValue::Str(s)) && s@ == t
}

/// `v` is an array of the strings `ts`, in order.
pub open spec fn is_text_list(v: Option<JsonValue>, ts: Seq<String>) -> bool {
    match v {
        Some(JsonValue::Array(items)) => items@.len() == ts.len() && forall|i: int|
            0 <= i < ts.len() ==> (#[trigger] items@[i] matches JsonValue::Str(s) && s@ == ts[i]@),
        _ => false,
    }
}

/// `v` is the integer `n`.
pub open spec fn is_count(v: Option<JsonValue>, n: u64) -> bool {
    if n <= i64::MAX {
        v == Some(JsonValue::Int(n as i64))
    } else {
        v == Some(JsonValue::UInt(n))
    }
}

/// The optional text member `v`: absent when unset, else the string.
pub open spec fn optional_text(v: Option<JsonValue>, t: Option<String>) -> bool {
    match t {
        Some(t) => is_text(v, t@),
        None => v is None,
    }
}

/// The optional list member `v`: absent when unset, else the array of strings.
pub open spec fn optional_text_list(v: Option<JsonValue>, ts: Option<Vec<String>>) -> bool {
    match ts {
        Some(ts) => is_text_list(v, ts@),
        None => v is None,
    }
}

/// How many of the optional members of `request` are set.
pub open spec fn optional_count(request: TTSRequest) -> int {
    (if request.seed is Some { 1int } else { 0 }) + (if request.previous_text is Some { 1int } else { 0 })
        + (if request.previous_request_ids is Some { 1int } else { 0 }) + (
    if request.next_request_ids is Some {
        1int
    } else {
        0
    }) + (if request.next_request_text is Some { 1int } else { 0 })
}

fn text_value(s: String) -> (r: JsonValue)
    ensures
        is_text(Some(r), s@),
{
    JsonValue::Str(s)
}

fn text_list_value(ts: &Vec<String>) -> (r: JsonValue)
    ensures
        is_text_list(Some(r), ts@),
{
    let mut items: Vec<JsonValue> = Vec::new();
    let mut i: usize = 0;
    while i < ts.len()
        invariant
            i <= ts@.len(),
            items@.len() == i,
            forall|j: int| 0 <= j < i ==> (#[trigger] items@[j] matches JsonValue::Str(s) && s@ == ts@[j]@),
        decreases ts.len() - i,
    {
        items.push(text_value(ts[i].clone()));
        i = i + 1;
    }
    JsonValue::Array(items)
}

fn count_value(n: u64) -> (r: JsonValue)
    ensures
        is_count(Some(r), n),
{
    if n <= i64::MAX as u64 {
        JsonValue::Int(n as i64)
    } else {
        JsonValue::UInt(n)
    }
}

/// The JSON body of `request`: an object with its voice, text, model, settings and
/// download directory, and with each optional member only when it is set; an unset one is
/// left out, not written as null.
pub fn request_body(request: TTSRequest) -> (r: JsonValue)
    ensures
        r is Object,
        r->Object_0@.len() == 5 + optional_count(request),
        is_text(member(Some(r), "voice_id"@), request.voice_id@),
        is_text(member(Some(r), "text"@), request.text@),
        is_text(member(Some(r), "model_id"@), request.model_id@),
        member(Some(r), "voice_settings"@) == Some(request.voice_settings),
        request.seed is None ==> member(Some(r), "seed"@) is None,
        request.seed matches Some(n) ==> is_count(member(Some(r), "seed"@), n),
        optional_text(member(Some(r), "previous_text"@), request.previous_text),
        optional_text_list(member(Some(r), "previous_request_ids"@), request.previous_request_ids),
        optional_text_list(member(Some(r), "next_request_ids"@), request.next_request_ids),
        optional_text(member(Some(r), "next_request_text"@), request.next_request_text),
        is_text(member(Some(r), "download_directory"@), request.download_directory@),
{
    proof {
        reveal_strlit("voice_id");
        reveal_strlit("text");
        reveal_strlit("model_id");
        reveal_strlit("voice_settings");
        reveal_strlit("seed");
        reveal_strlit("previous_text");
        reveal_strlit("previous_request_ids");
        reveal_strlit("next_request_ids");
        reveal_strlit("next_request_text");
        reveal_strlit("download_directory");
        assert("voice_id"@.len() == 8 && "model_id"@.len() == 8);
        assert("text"@.len() == 4 && "seed"@.len() == 4);
        assert("voice_settings"@.len() == 14);
        assert("previous_text"@.len() == 13);
        assert("previous_request_ids"@.len() == 20);
        assert("next_request_ids"@.len() == 16);
        assert("next_request_text"@.len() == 17);
        assert("download_directory"@.len() == 18);
        assert("voice_id"@[0] != "model_id"@[0]);
        assert("text"@[0] != "seed"@[0]);
    }
    let mut members: Vec<(String, JsonValue)> = Vec::new();
    assert(lookup(members@, "voice_id"@) is None);
    push_member(&mut members, "voice_id", text_value(request.voice_id));
    push_member(&mut members, "text", text_value(request.text));
    push_member(&mut members, "model_id", text_value(request.model_id));
    push_member(&mut members, "voice_settings", request.voice_settings);
    if let Some(n) = request.seed {
        push_member(&mut members, "seed", count_value(n));
    }
    if let Some(t) = request.previous_text {
        push_member(&mut members, "previous_text", text_value(t));
    }
    if let Some(ids) = request.previous_request_ids {
        push_member(&mut members, "previous_request_ids", text_list_value(&ids));
    }
    if let Some(ids) = request.next_request_ids {
        push_member(&mut members, "next_request_ids", text_list_value(&ids));
    }
    if let Some(t) = request.next_request_text {
        push_member(&mut members, "next_request_text", text_value(t));
    }
    push_member(&mut members, "download_directory", text_value(request.download_directory));
    JsonValue::Object(members)
}

} // verus!
