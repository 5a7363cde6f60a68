//! Laws of the dispatcher, proved over its model `call_spec`: what every
//! invocation returns and stores, stated once for all stores, parameters
//! and outside inputs.

use vstd::prelude::*;
use crate::dao::{call_spec, envelope_of, error_envelope, pending_envelope};
use crate::json::{get_int, get_str, jval_get, lookup_seq, JVal};
use crate::ops::{create_result, prompt_result, track_result, valid_name};
use crate::store::{RespV, Status};
use crate::trusted::upper_of;

verus! {

/// The operation names and the member keys the model mentions are
/// pairwise distinct character sequences.
proof fn lemma_distinct_names()
    ensures
        "/result/poll"@ != "/prompt/generate"@,
        "/result/poll"@ != "/template/create"@,
        "/result/poll"@ != "/template/render"@,
        "/result/poll"@ != "/usage/track"@,
        "/prompt/generate"@ != "/template/create"@,
        "/prompt/generate"@ != "/template/render"@,
        "/prompt/generate"@ != "/usage/track"@,
        "/template/create"@ != "/template/render"@,
        "/template/create"@ != "/usage/track"@,
        "/template/render"@ != "/usage/track"@,
        "text"@ != "processed"@,
        "text"@ != "timestamp"@,
        "processed"@ != "timestamp"@,
        "id"@ != "status"@,
        "id"@ != "result"@,
        "id"@ != "error"@,
        "status"@ != "result"@,
{
    reveal_strlit("/result/poll");
    reveal_strlit("/prompt/generate");
    reveal_strlit("/template/create");
    reveal_strlit("/template/render");
    reveal_strlit("/usage/track");
    reveal_strlit("text");
    reveal_strlit("processed");
    reveal_strlit("timestamp");
    reveal_strlit("id");
    reveal_strlit("status");
    reveal_strlit("result");
    reveal_strlit("error");
    assert("/result/poll"@.len() == 12);
    assert("/prompt/generate"@.len() == 16);
    assert("/template/create"@.len() == 16);
    assert("/template/render"@.len() == 16);
    assert("/usage/track"@.len() == 12);
    assert("/result/poll"@[1] == 'r');
    assert("/usage/track"@[1] == 'u');
    assert("/prompt/generate"@[1] == 'p');
    assert("/template/create"@[1] == 't');
    assert("/template/render"@[1] == 't');
    assert("/template/create"@[10] == 'c');
    assert("/template/render"@[10] == 'r');
    assert("text"@.len() == 4);
    assert("processed"@.len() == 9);
    assert("timestamp"@.len() == 9);
    assert("processed"@[0] == 'p');
    assert("timestamp"@[0] == 't');
    assert("id"@.len() == 2);
    assert("status"@.len() == 6);
    assert("result"@.len() == 6);
    assert("error"@.len() == 5);
    assert("status"@[0] == 's');
    assert("result"@[0] == 'r');
}

/// A valid prompt call succeeds, and its `processed` member is the
/// uppercased text followed by the processing suffix.
pub proof fn lemma_prompt_processed(params: JVal, ts: Seq<char>)
    requires
        get_str(params, "text"@) is Some,
        1 <= get_str(params, "text"@).unwrap().len() <= 10000,
    ensures
        prompt_result(params, ts) is Ok,
        jval_get(prompt_result(params, ts)->Ok_0, "processed"@) == Some(
            JVal::Str(upper_of(get_str(params, "text"@).unwrap()) + " [AI-processed]"@),
        ),
{
    lemma_distinct_names();
    let t = get_str(params, "text"@).unwrap();
    let s = seq![
        ("text"@, JVal::Str(t)),
        ("processed"@, JVal::Str(upper_of(t) + " [AI-processed]"@)),
        ("timestamp"@, JVal::Str(ts)),
    ];
    assert(s.drop_first() =~= seq![s[1], s[2]]);
    assert(lookup_seq(s, "processed"@) == lookup_seq(s.drop_first(), "processed"@));
    assert(lookup_seq(s.drop_first(), "processed"@) == Some(s.drop_first()[0].1));
    assert(lookup_seq(s, "processed"@) == Some(JVal::Str(upper_of(t) + " [AI-processed]"@)));
}

/// A prompt call whose text is absent, empty, or longer than the limit
/// fails with the validation message, and what the store gains under the
/// fresh correlation identifier is a failed outcome, not a completed one.
pub proof fn lemma_prompt_rejected(
    store: Map<Seq<char>, RespV>,
    params: JVal,
    cid: Seq<char>,
    tid: Seq<char>,
    ts: Seq<char>,
)
    requires
        get_str(params, "text"@) is None || get_str(params, "text"@).unwrap().len() == 0 || get_str(
            params,
            "text"@,
        ).unwrap().len() > 10000,
    ensures
        ({
            let m = if get_str(params, "text"@) is None || get_str(params, "text"@).unwrap().len()
                == 0 {
                "Missing required parameter: text"@
            } else {
                "Text must be between 1 and 10000 characters"@
            };
            call_spec(store, "/prompt/generate"@, params, cid, tid, ts) == (
                error_envelope(m),
                store.insert(cid, RespV { id: cid, status: Status::Failed, result: None, error: Some(m) }),
            )
        }),
{
    lemma_distinct_names();
}

/// Polling never changes the store, and repeated polls with the same
/// parameters return the identical envelope, whatever outside inputs the
/// two invocations consumed.
pub proof fn lemma_poll_idempotent(
    store: Map<Seq<char>, RespV>,
    params: JVal,
    cid1: Seq<char>,
    tid1: Seq<char>,
    ts1: Seq<char>,
    cid2: Seq<char>,
    tid2: Seq<char>,
    ts2: Seq<char>,
)
    ensures
        call_spec(store, "/result/poll"@, params, cid1, tid1, ts1).1 == store,
        call_spec(store, "/result/poll"@, params, cid1, tid1, ts1).0 == call_spec(
            store,
            "/result/poll"@,
            params,
            cid2,
            tid2,
            ts2,
        ).0,
{
}

/// A tracking call with a negative duration fails with the validation
/// message; nothing completed is returned.
pub proof fn lemma_track_negative(
    store: Map<Seq<char>, RespV>,
    params: JVal,
    cid: Seq<char>,
    tid: Seq<char>,
    ts: Seq<char>,
)
    requires
        get_str(params, "operation"@) is Some,
        get_int(params, "duration_ms"@) is Some,
        get_int(params, "duration_ms"@).unwrap() < 0,
    ensures
        call_spec(store, "/usage/track"@, params, cid, tid, ts).0 == error_envelope(
            "duration_ms must be non-negative"@,
        ),
{
    lemma_distinct_names();
}

/// A tracking call with a non-negative duration succeeds, and unlike
/// every other successful operation its envelope already reports the
/// completed status rather than the pending one.
pub proof fn lemma_track_completed(
    store: Map<Seq<char>, RespV>,
    params: JVal,
    cid: Seq<char>,
    tid: Seq<char>,
    ts: Seq<char>,
)
    requires
        get_str(params, "operation"@) is Some,
        get_int(params, "duration_ms"@) is Some,
        get_int(params, "duration_ms"@).unwrap() >= 0,
    ensures
        track_result(params, ts) is Ok,
        call_spec(store, "/usage/track"@, params, cid, tid, ts).0 == envelope_of(
            RespV {
                id: cid,
                status: Status::Completed,
                result: Some(track_result(params, ts)->Ok_0),
                error: None,
            },
        ),
        jval_get(call_spec(store, "/usage/track"@, params, cid, tid, ts).0, "status"@) == Some(
            JVal::Str("completed"@),
        ),
{
    lemma_distinct_names();
    let resp = RespV {
        id: cid,
        status: Status::Completed,
        result: Some(track_result(params, ts)->Ok_0),
        error: None,
    };
    let es = crate::dao::envelope_entries(resp);
    assert(es =~= seq![
        ("id"@, JVal::Str(cid)),
        ("status"@, JVal::Str("completed"@)),
        ("result"@, track_result(params, ts)->Ok_0),
    ]);
    assert(es.drop_first() =~= seq![es[1], es[2]]);
    assert(lookup_seq(es, "status"@) == lookup_seq(es.drop_first(), "status"@));
    assert(lookup_seq(es.drop_first(), "status"@) == Some(es.drop_first()[0].1));
    assert(lookup_seq(es, "status"@) == Some(JVal::Str("completed"@)));
}

/// An unknown operation name fails with a message that names it, and the
/// failure is recorded under the fresh correlation identifier.
pub proof fn lemma_unknown_operation(
    store: Map<Seq<char>, RespV>,
    op: Seq<char>,
    params: JVal,
    cid: Seq<char>,
    tid: Seq<char>,
    ts: Seq<char>,
)
    requires
        op != "/result/poll"@,
        op != "/prompt/generate"@,
        op != "/template/create"@,
        op != "/template/render"@,
        op != "/usage/track"@,
    ensures
        call_spec(store, op, params, cid, tid, ts) == (
            error_envelope("Invalid operation: "@ + op),
            store.insert(
                cid,
                RespV {
                    id: cid,
                    status: Status::Failed,
                    result: None,
                    error: Some("Invalid operation: "@ + op),
                },
            ),
        ),
{
}

/// Polling an identifier that nothing is stored under reports it not
/// found, naming the identifier, and stores nothing.
pub proof fn lemma_poll_unknown(
    store: Map<Seq<char>, RespV>,
    params: JVal,
    cid: Seq<char>,
    tid: Seq<char>,
    ts: Seq<char>,
)
    requires
        get_str(params, "id"@) is Some,
        !store.contains_key(get_str(params, "id"@).unwrap()),
    ensures
        call_spec(store, "/result/poll"@, params, cid, tid, ts) == (
            error_envelope("Result not found or expired: "@ + get_str(params, "id"@).unwrap()),
            store,
        ),
{
}

/// The round trip: a valid template creation is answered with the pending
/// envelope alone, and polling its correlation identifier afterwards
/// returns the completed envelope whose payload carries the template
/// identifier — a different field than the correlation identifier.
pub proof fn lemma_create_then_poll(
    store: Map<Seq<char>, RespV>,
    params: JVal,
    poll_params: JVal,
    cid: Seq<char>,
    tid: Seq<char>,
    ts: Seq<char>,
    cid2: Seq<char>,
    tid2: Seq<char>,
    ts2: Seq<char>,
)
    requires
        get_str(params, "name"@) is Some,
        valid_name(get_str(params, "name"@).unwrap()),
        get_str(params, "pattern"@) is Some,
        get_str(poll_params, "id"@) == Some(cid),
    ensures
        create_result(params, tid) is Ok,
        call_spec(store, "/template/create"@, params, cid, tid, ts).0 == pending_envelope(cid),
        call_spec(
            call_spec(store, "/template/create"@, params, cid, tid, ts).1,
            "/result/poll"@,
            poll_params,
            cid2,
            tid2,
            ts2,
        ).0 == envelope_of(
            RespV {
                id: cid,
                status: Status::Completed,
                result: Some(create_result(params, tid)->Ok_0),
                error: None,
            },
        ),
        jval_get(create_result(params, tid)->Ok_0, "id"@) == Some(JVal::Str(tid)),
{
    lemma_distinct_names();
    let payload = create_result(params, tid)->Ok_0;
    let st2 = call_spec(store, "/template/create"@, params, cid, tid, ts).1;
    assert(st2.contains_key(cid));
    assert(st2[cid] == RespV {
        id: cid,
        status: Status::Completed,
        result: Some(payload),
        error: None,
    });
    let es = seq![
        ("id"@, JVal::Str(tid)),
        ("name"@, JVal::Str(get_str(params, "name"@).unwrap())),
        ("pattern"@, JVal::Str(get_str(params, "pattern"@).unwrap())),
        ("variables"@, JVal::Arr(crate::json::get_arr_or_empty(params, "variables"@))),
    ];
    assert(lookup_seq(es, "id"@) == Some(JVal::Str(tid)));
}

/// The store's invariant: an invocation never stores a pending outcome,
/// every stored outcome carries exactly its payload or its error, and
/// each outcome sits under its own correlation identifier.
pub proof fn lemma_store_invariant_preserved(
    store: Map<Seq<char>, RespV>,
    op: Seq<char>,
    params: JVal,
    cid: Seq<char>,
    tid: Seq<char>,
    ts: Seq<char>,
)
    requires
        forall|k: Seq<char>|
            store.contains_key(k) ==> {
                &&& (#[trigger] store[k]).wf()
                &&& store[k].status != Status::Pending
                &&& store[k].id == k
            },
    ensures
        forall|k: Seq<char>|
            call_spec(store, op, params, cid, tid, ts).1.contains_key(k) ==> {
                &&& (#[trigger] call_spec(store, op, params, cid, tid, ts).1[k]).wf()
                &&& call_spec(store, op, params, cid, tid, ts).1[k].status != Status::Pending
                &&& call_spec(store, op, params, cid, tid, ts).1[k].id == k
            },
{
}

} // verus!
