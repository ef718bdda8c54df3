use vstd::prelude::*;

use crate::json::{child, json_index, json_text, text_or_null, JsonValue};
use crate::text::{remove_quotes, without_quotes};

verus! {

/// `v[a][b]`.
pub open spec fn at2(v: JsonValue, a: Seq<char>, b: Seq<char>) -> JsonValue {
    json_index(json_index(v, a), b)
}

/// `v[a][b][c]`.
pub open spec fn at3(v: JsonValue, a: Seq<char>, b: Seq<char>, c: Seq<char>) -> JsonValue {
    json_index(at2(v, a, b), c)
}

/// The frame time can be read (named: `chrono`'s parse of the format
/// `%Y-%m-%dT%H:%M:%S%.3fZ`).
pub uninterp spec fn utc_time_valid(s: Seq<char>) -> bool;

/// `NaiveDateTime::parse_from_str(s, "%Y-%m-%dT%H:%M:%S%.3fZ")` succeeds.
#[verifier::external_body]
pub(crate) fn parse_utc_time(s: &String) -> (r: bool)
    ensures
        r == utc_time_valid(s@),
{
    chrono::NaiveDateTime::parse_from_str(s.as_str(), "%Y-%m-%dT%H:%M:%S%.3fZ").is_ok()
}

/// A frame that the processing accepts: one without a time, or one whose time
/// reads as a date.
pub open spec fn frame_time_ok(j: JsonValue, prefix: Seq<char>) -> bool {
    let t = frame_time_text(j, prefix);
    t != "null"@ ==> utc_time_valid(t)
}

/// The time text of a frame whose analytics stand under `prefix`: the text of
/// `<prefix>.VideoAnalytics.Frame.UtcTime` without double quotes.
pub open spec fn frame_time_text(j: JsonValue, prefix: Seq<char>) -> Seq<char> {
    remove_quotes(json_text(at2(at2(j, prefix, "VideoAnalytics"@), "Frame"@, "UtcTime"@)))
}

/// The time text of a frame whose analytics stand under `prefix`.
pub fn frame_time(j: &JsonValue, prefix: &str) -> (r: Vec<char>)
    ensures
        r@ == frame_time_text(*j, prefix@),
{
    let meta = child(child(Some(j), prefix), "VideoAnalytics");
    let time = text_or_null(child(child(meta, "Frame"), "UtcTime"));
    without_quotes(&time)
}

/// The objects of a frame whose analytics stand under `prefix`, given
/// whether it carries a time.
pub fn frame_objects_under<'a>(j: &'a JsonValue, prefix: &str, has_time: bool) -> (r: Vec<&'a JsonValue>)
    ensures
        r@.len() == objects_under_of(*j, prefix@, has_time).len(),
        forall|k: int| 0 <= k < r@.len() ==> *r@[k] == objects_under_of(*j, prefix@, has_time)[k],
{
    let mut r: Vec<&'a JsonValue> = Vec::new();
    if !has_time {
        return r;
    }
    let meta = child(child(Some(j), prefix), "VideoAnalytics");
    let node = child(child(meta, "Frame"), "Object");
    match node {
        Some(JsonValue::Array(items)) => {
            let mut i: usize = 0;
            while i < items.len()
                invariant
                    i <= items@.len(),
                    objects_under_of(*j, prefix@, has_time) == items@,
                    r@.len() == i,
                    forall|k: int| 0 <= k < i ==> *r@[k] == items@[k],
                decreases items.len() - i,
            {
                r.push(&items[i]);
                i = i + 1;
            }
        },
        Some(JsonValue::Null) => {},
        Some(other) => {
            r.push(other);
        },
        None => {},
    }
    r
}

/// The objects of a frame whose analytics stand under `prefix`.
pub open spec fn objects_under_of(j: JsonValue, prefix: Seq<char>, has_time: bool) -> Seq<JsonValue> {
    if !has_time {
        Seq::empty()
    } else {
        match at2(at2(j, prefix, "VideoAnalytics"@), "Frame"@, "Object"@) {
            JsonValue::Array(items) => items@,
            JsonValue::Null => Seq::empty(),
            other => seq![other],
        }
    }
}

} // verus!
