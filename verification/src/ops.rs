//! Operation handlers: pure validation and payload construction, one per
//! supported operation. None of them generates identifiers or persists
//! anything; the dispatcher does that.
//!
//! Each handler's contract pins the whole outcome down, up to the two
//! outside inputs a handler may consume: the clock reading and the fresh
//! template identifier. Those appear as explicit arguments of the spec
//! functions, and the executable handlers promise their result for some
//! value of them.

use vstd::prelude::*;
use crate::json::{
    arr_view, get_arr_or_empty, get_int, get_obj_or_empty, get_str, jval, jval_lookup, lookup_str,
    deep_clone, JVal, JsonVal,
};
use crate::trusted::{now_rfc3339, upper_of, uppercase};

verus! {

/// A result and its model.
pub open spec fn res_view(r: Result<JsonVal, String>) -> Result<JVal, Seq<char>> {
    match r {
        Ok(v) => Ok(jval(v)),
        Err(e) => Err(e@),
    }
}

/// A character a template name may hold: ASCII letters, digits, hyphen.
pub open spec fn name_char(c: char) -> bool {
    (('A' as u32) <= (c as u32) && (c as u32) <= ('Z' as u32)) || (('a' as u32) <= (c as u32) && (c
        as u32) <= ('z' as u32)) || (('0' as u32) <= (c as u32) && (c as u32) <= ('9' as u32)) || c
        == '-'
}

/// A valid template name: one or more letters, digits or hyphens.
pub open spec fn valid_name(s: Seq<char>) -> bool {
    s.len() >= 1 && forall|i: int| 0 <= i < s.len() ==> name_char(s[i])
}

/// What `/prompt/generate` returns for `params`, given the clock reading
/// `ts`: the text echoed, its uppercase form with the processing suffix,
/// and the timestamp — or the validation error.
pub open spec fn prompt_result(params: JVal, ts: Seq<char>) -> Result<JVal, Seq<char>> {
    match get_str(params, "text"@) {
        None => Err("Missing required parameter: text"@),
        Some(t) => if t.len() == 0 {
            Err("Missing required parameter: text"@)
        } else if t.len() > 10000 {
            Err("Text must be between 1 and 10000 characters"@)
        } else {
            Ok(
                JVal::Obj(
                    seq![
                        ("text"@, JVal::Str(t)),
                        ("processed"@, JVal::Str(upper_of(t) + " [AI-processed]"@)),
                        ("timestamp"@, JVal::Str(ts)),
                    ],
                ),
            )
        },
    }
}

/// What `/template/create` returns for `params`, given the fresh template
/// identifier `tid`.
pub open spec fn create_result(params: JVal, tid: Seq<char>) -> Result<JVal, Seq<char>> {
    match get_str(params, "name"@) {
        None => Err("Missing required parameter: name"@),
        Some(name) => match get_str(params, "pattern"@) {
            None => Err("Missing required parameter: pattern"@),
            Some(pattern) => if !valid_name(name) {
                Err("Invalid template name: must be alphanumeric with hyphens"@)
            } else {
                Ok(
                    JVal::Obj(
                        seq![
                            ("id"@, JVal::Str(tid)),
                            ("name"@, JVal::Str(name)),
                            ("pattern"@, JVal::Str(pattern)),
                            ("variables"@, JVal::Arr(get_arr_or_empty(params, "variables"@))),
                        ],
                    ),
                )
            },
        },
    }
}

/// What `/template/render` returns for `params`: fully deterministic.
pub open spec fn render_result(params: JVal) -> Result<JVal, Seq<char>> {
    match get_str(params, "template_id"@) {
        None => Err("Missing required parameter: template_id"@),
        Some(tid) => Ok(
            JVal::Obj(
                seq![
                    ("template_id"@, JVal::Str(tid)),
                    (
                        "rendered"@,
                        JVal::Str("Rendered template "@ + tid + " with variables"@),
                    ),
                    ("variables_used"@, JVal::Obj(get_obj_or_empty(params, "values"@))),
                ],
            ),
        ),
    }
}

/// What `/usage/track` returns for `params`, given the clock reading
/// `ts`: a non-negative duration is required.
pub open spec fn track_result(params: JVal, ts: Seq<char>) -> Result<JVal, Seq<char>> {
    match get_str(params, "operation"@) {
        None => Err("Missing required parameter: operation"@),
        Some(op) => match get_int(params, "duration_ms"@) {
            None => Err("Missing required parameter: duration_ms"@),
            Some(d) => if d < 0 {
                Err("duration_ms must be non-negative"@)
            } else {
                Ok(
                    JVal::Obj(
                        seq![
                            ("tracked"@, JVal::Bool(true)),
                            ("operation"@, JVal::Str(op)),
                            ("timestamp"@, JVal::Str(ts)),
                        ],
                    ),
                )
            },
        },
    }
}

fn name_char_ok(c: char) -> (r: bool)
    ensures
        r == name_char(c),
{
    let u = c as u32;
    (65 <= u && u <= 90) || (97 <= u && u <= 122) || (48 <= u && u <= 57) || c == '-'
}

/// Whether `s` is a valid template name.
pub fn check_name(s: &str) -> (r: bool)
    ensures
        r == valid_name(s@),
{
    let n = s.unicode_len();
    if n == 0 {
        return false;
    }
    let mut i: usize = 0;
    while i < n
        invariant
            n == s@.len(),
            i <= n,
            forall|j: int| 0 <= j < i ==> name_char(s@[j]),
        decreases n - i,
    {
        if !name_char_ok(s.get_char(i)) {
            return false;
        }
        i += 1;
    }
    true
}

/// Simulated prompt processing: validates the text, uppercases it and
/// appends the processing suffix, stamped with the current time.
pub fn process_prompt(params: &JsonVal) -> (r: Result<JsonVal, String>)
    ensures
        exists|ts: Seq<char>| res_view(r) == prompt_result(params@, ts),
{
    let t = match lookup_str(params, "text") {
        Some(t) => t,
        None => {
            let r = Err(String::from_str("Missing required parameter: text"));
            proof {
                assert(res_view(r) == prompt_result(params@, Seq::<char>::empty()));
            }
            return r;
        },
    };
    let n = t.as_str().unicode_len();
    if n == 0 {
        let r = Err(String::from_str("Missing required parameter: text"));
        proof {
            assert(res_view(r) == prompt_result(params@, Seq::<char>::empty()));
        }
        return r;
    }
    if n > 10000 {
        let r = Err(String::from_str("Text must be between 1 and 10000 characters"));
        proof {
            assert(res_view(r) == prompt_result(params@, Seq::<char>::empty()));
        }
        return r;
    }
    let processed = uppercase(t.as_str()).concat(" [AI-processed]");
    let stamp = now_rfc3339();
    let ghost ts = stamp@;
    let mut es: Vec<(String, JsonVal)> = Vec::new();
    es.push((String::from_str("text"), JsonVal::Str(t.clone())));
    es.push((String::from_str("processed"), JsonVal::Str(processed)));
    es.push((String::from_str("timestamp"), JsonVal::Str(stamp)));
    let r = Ok(JsonVal::Obj(es));
    proof {
        assert(crate::json::entries_view(es@) =~= seq![
            ("text"@, JVal::Str(t@)),
            ("processed"@, JVal::Str(upper_of(t@) + " [AI-processed]"@)),
            ("timestamp"@, JVal::Str(ts)),
        ]);
        assert(res_view(r) == prompt_result(params@, ts));
    }
    r
}

/// Creates a reusable template: validates the name and returns the
/// template under a freshly generated identifier.
pub fn create_template(params: &JsonVal) -> (r: Result<JsonVal, String>)
    ensures
        exists|tid: Seq<char>| res_view(r) == create_result(params@, tid),
{
    let name = match lookup_str(params, "name") {
        Some(s) => s,
        None => {
            let r = Err(String::from_str("Missing required parameter: name"));
            proof {
                assert(res_view(r) == create_result(params@, Seq::<char>::empty()));
            }
            return r;
        },
    };
    let pattern = match lookup_str(params, "pattern") {
        Some(s) => s,
        None => {
            let r = Err(String::from_str("Missing required parameter: pattern"));
            proof {
                assert(res_view(r) == create_result(params@, Seq::<char>::empty()));
            }
            return r;
        },
    };
    let variables: JsonVal = match jval_lookup(params, "variables") {
        Some(v) => match v {
            JsonVal::Arr(_) => deep_clone(v),
            _ => JsonVal::Arr(Vec::new()),
        },
        None => JsonVal::Arr(Vec::new()),
    };
    proof {
        assert(arr_view(Seq::<JsonVal>::empty()) =~= Seq::<JVal>::empty());
        assert(jval(variables) == JVal::Arr(get_arr_or_empty(params@, "variables"@)));
    }
    if !check_name(name.as_str()) {
        let r = Err(String::from_str("Invalid template name: must be alphanumeric with hyphens"));
        proof {
            assert(res_view(r) == create_result(params@, Seq::<char>::empty()));
        }
        return r;
    }
    let tid = crate::trusted::fresh_id();
    let ghost tidv = tid@;
    let mut es: Vec<(String, JsonVal)> = Vec::new();
    es.push((String::from_str("id"), JsonVal::Str(tid)));
    es.push((String::from_str("name"), JsonVal::Str(name.clone())));
    es.push((String::from_str("pattern"), JsonVal::Str(pattern.clone())));
    es.push((String::from_str("variables"), variables));
    let r = Ok(JsonVal::Obj(es));
    proof {
        assert(crate::json::entries_view(es@) =~= seq![
            ("id"@, JVal::Str(tidv)),
            ("name"@, JVal::Str(name@)),
            ("pattern"@, JVal::Str(pattern@)),
            ("variables"@, JVal::Arr(get_arr_or_empty(params@, "variables"@))),
        ]);
        assert(res_view(r) == create_result(params@, tidv));
    }
    r
}

/// Renders a template reference: echoes the identifier and the values
/// offered for substitution. Deterministic, so its contract is exact.
pub fn render_template(params: &JsonVal) -> (r: Result<JsonVal, String>)
    ensures
        res_view(r) == render_result(params@),
{
    let tid = match lookup_str(params, "template_id") {
        Some(s) => s,
        None => {
            return Err(String::from_str("Missing required parameter: template_id"));
        },
    };
    let values: JsonVal = match jval_lookup(params, "values") {
        Some(v) => match v {
            JsonVal::Obj(_) => deep_clone(v),
            _ => JsonVal::Obj(Vec::new()),
        },
        None => JsonVal::Obj(Vec::new()),
    };
    proof {
        assert(crate::json::entries_view(Seq::<(String, JsonVal)>::empty()) =~= Seq::<
            (Seq<char>, JVal),
        >::empty());
        assert(jval(values) == JVal::Obj(get_obj_or_empty(params@, "values"@)));
    }
    let rendered = String::from_str("Rendered template ").concat(tid.as_str()).concat(
        " with variables",
    );
    let mut es: Vec<(String, JsonVal)> = Vec::new();
    es.push((String::from_str("template_id"), JsonVal::Str(tid.clone())));
    es.push((String::from_str("rendered"), JsonVal::Str(rendered)));
    es.push((String::from_str("variables_used"), values));
    let r = Ok(JsonVal::Obj(es));
    proof {
        assert(crate::json::entries_view(es@) =~= seq![
            ("template_id"@, JVal::Str(tid@)),
            ("rendered"@, JVal::Str("Rendered template "@ + tid@ + " with variables"@)),
            ("variables_used"@, JVal::Obj(get_obj_or_empty(params@, "values"@))),
        ]);
    }
    r
}

/// Tracks one use of an operation: validates the duration and returns the
/// acknowledgement, stamped with the current time.
pub fn track_usage(params: &JsonVal) -> (r: Result<JsonVal, String>)
    ensures
        exists|ts: Seq<char>| res_view(r) == track_result(params@, ts),
{
    let op = match lookup_str(params, "operation") {
        Some(s) => s,
        None => {
            let r = Err(String::from_str("Missing required parameter: operation"));
            proof {
                assert(res_view(r) == track_result(params@, Seq::<char>::empty()));
            }
            return r;
        },
    };
    let d = match crate::json::lookup_int(params, "duration_ms") {
        Some(d) => d,
        None => {
            let r = Err(String::from_str("Missing required parameter: duration_ms"));
            proof {
                assert(res_view(r) == track_result(params@, Seq::<char>::empty()));
            }
            return r;
        },
    };
    if d < 0 {
        let r = Err(String::from_str("duration_ms must be non-negative"));
        proof {
            assert(res_view(r) == track_result(params@, Seq::<char>::empty()));
        }
        return r;
    }
    let stamp = now_rfc3339();
    let ghost ts = stamp@;
    let mut es: Vec<(String, JsonVal)> = Vec::new();
    es.push((String::from_str("tracked"), JsonVal::Bool(true)));
    es.push((String::from_str("operation"), JsonVal::Str(op.clone())));
    es.push((String::from_str("timestamp"), JsonVal::Str(stamp)));
    let r = Ok(JsonVal::Obj(es));
    proof {
        assert(crate::json::entries_view(es@) =~= seq![
            ("tracked"@, JVal::Bool(true)),
            ("operation"@, JVal::Str(op@)),
            ("timestamp"@, JVal::Str(ts)),
        ]);
        assert(res_view(r) == track_result(params@, ts));
    }
    r
}

} // verus!
