//! The dispatcher: routes an operation name to its handler, records every
//! outcome in the store under a fresh correlation identifier, and serves
//! the poll operation that retrieves a recorded outcome.
//!
//! `call_spec` is the mathematical model of one invocation: a function of
//! the store's contents, the operation name, the parameters, and the three
//! outside inputs an invocation may consume (the fresh correlation
//! identifier, the fresh template identifier, and the clock reading). The
//! executable dispatcher promises its envelope and its new store for some
//! value of those three.

use vstd::prelude::*;
use crate::json::{deep_clone, entries_view, get_str, lookup_str, str_eq, JVal, JsonVal};
use crate::ops::{
    create_result, create_template, process_prompt, prompt_result, render_result, render_template,
    res_view, track_result, track_usage,
};
use crate::store::{OperationResponse, RespV, ResultStore, Status};

verus! {

/// The wire form of each lifecycle stage.
pub open spec fn status_str(s: Status) -> Seq<char> {
    match s {
        Status::Pending => "pending"@,
        Status::Completed => "completed"@,
        Status::Failed => "failed"@,
    }
}

/// The members of the envelope for an outcome: identifier and status
/// always; the payload when one is present; the error when one is present.
pub open spec fn envelope_entries(r: RespV) -> Seq<(Seq<char>, JVal)> {
    seq![("id"@, JVal::Str(r.id)), ("status"@, JVal::Str(status_str(r.status)))] + (match r.result {
        Some(p) => seq![("result"@, p)],
        None => Seq::empty(),
    }) + (match r.error {
        Some(e) => seq![("error"@, JVal::Str(e))],
        None => Seq::empty(),
    })
}

/// The envelope returned for an outcome.
pub open spec fn envelope_of(r: RespV) -> JVal {
    JVal::Obj(envelope_entries(r))
}

/// The envelope that reports submission of an invocation still marked
/// pending: identifier and status, nothing else.
pub open spec fn pending_envelope(cid: Seq<char>) -> JVal {
    envelope_of(RespV { id: cid, status: Status::Pending, result: None, error: None })
}

/// The envelope that reports a failure message alone.
pub open spec fn error_envelope(msg: Seq<char>) -> JVal {
    JVal::Obj(seq![("error"@, JVal::Str(msg))])
}

/// What polling returns: the envelope stored under the given identifier,
/// or the not-found error; a missing identifier parameter is an error.
pub open spec fn poll_spec(store: Map<Seq<char>, RespV>, params: JVal) -> JVal {
    match get_str(params, "id"@) {
        None => error_envelope("Missing required parameter: id"@),
        Some(pid) => if store.contains_key(pid) {
            envelope_of(store[pid])
        } else {
            error_envelope("Result not found or expired: "@ + pid)
        },
    }
}

/// What routing an operation name to its handler produces, given the
/// fresh template identifier `tid` and the clock reading `ts`.
pub open spec fn route_spec(op: Seq<char>, params: JVal, tid: Seq<char>, ts: Seq<char>) -> Result<
    JVal,
    Seq<char>,
> {
    if op == "/prompt/generate"@ {
        prompt_result(params, ts)
    } else if op == "/template/create"@ {
        create_result(params, tid)
    } else if op == "/template/render"@ {
        render_result(params)
    } else if op == "/usage/track"@ {
        track_result(params, ts)
    } else {
        Err("Invalid operation: "@ + op)
    }
}

/// One invocation: the envelope returned to the caller, and the store's
/// new contents. Polling reads the store and never writes it; every other
/// operation records its outcome under the fresh correlation identifier
/// `cid`. A successful tracking call returns its completed envelope at
/// once; every other success is answered with the pending envelope and
/// must be polled for.
pub open spec fn call_spec(
    store: Map<Seq<char>, RespV>,
    op: Seq<char>,
    params: JVal,
    cid: Seq<char>,
    tid: Seq<char>,
    ts: Seq<char>,
) -> (JVal, Map<Seq<char>, RespV>) {
    if op == "/result/poll"@ {
        (poll_spec(store, params), store)
    } else {
        match route_spec(op, params, tid, ts) {
            Ok(payload) => {
                let resp = RespV {
                    id: cid,
                    status: Status::Completed,
                    result: Some(payload),
                    error: None,
                };
                if op == "/usage/track"@ {
                    (envelope_of(resp), store.insert(cid, resp))
                } else {
                    (pending_envelope(cid), store.insert(cid, resp))
                }
            },
            Err(msg) => {
                let resp = RespV { id: cid, status: Status::Failed, result: None, error: Some(msg) };
                (error_envelope(msg), store.insert(cid, resp))
            },
        }
    }
}

/// A unified entry point for operation invocation: a store of outcomes
/// behind the `call` entry point.
pub struct DAO {
    store: ResultStore,
}

impl View for DAO {
    type V = Map<Seq<char>, RespV>;

    closed spec fn view(&self) -> Map<Seq<char>, RespV> {
        self.store@
    }
}

impl DAO {
    /// A dispatcher over an empty store.
    pub fn new() -> (r: Self)
        ensures
            r@ == Map::<Seq<char>, RespV>::empty(),
    {
        DAO { store: ResultStore::new() }
    }

    /// Routes an operation name to its handler; an unknown name fails
    /// with a message that names it.
    pub fn route_operation(&self, operation: &str, params: &JsonVal) -> (r: Result<
        JsonVal,
        String,
    >)
        ensures
            exists|tid: Seq<char>, ts: Seq<char>|
                res_view(r) == route_spec(operation@, params@, tid, ts),
    {
        if str_eq(operation, "/prompt/generate") {
            let r = process_prompt(params);
            proof {
                let ts = choose|ts: Seq<char>| res_view(r) == prompt_result(params@, ts);
                assert(res_view(r) == route_spec(operation@, params@, Seq::<char>::empty(), ts));
            }
            r
        } else if str_eq(operation, "/template/create") {
            let r = create_template(params);
            proof {
                let tid = choose|tid: Seq<char>| res_view(r) == create_result(params@, tid);
                assert(res_view(r) == route_spec(operation@, params@, tid, Seq::<char>::empty()));
            }
            r
        } else if str_eq(operation, "/template/render") {
            let r = render_template(params);
            proof {
                assert(res_view(r) == route_spec(
                    operation@,
                    params@,
                    Seq::<char>::empty(),
                    Seq::<char>::empty(),
                ));
            }
            r
        } else if str_eq(operation, "/usage/track") {
            let r = track_usage(params);
            proof {
                let ts = choose|ts: Seq<char>| res_view(r) == track_result(params@, ts);
                assert(res_view(r) == route_spec(operation@, params@, Seq::<char>::empty(), ts));
            }
            r
        } else {
            let r = Err(String::from_str("Invalid operation: ").concat(operation));
            proof {
                assert(res_view(r) == route_spec(
                    operation@,
                    params@,
                    Seq::<char>::empty(),
                    Seq::<char>::empty(),
                ));
            }
            r
        }
    }

    /// The wire form of a stage.
    pub fn status_string(s: Status) -> (r: String)
        ensures
            r@ == status_str(s),
    {
        match s {
            Status::Pending => String::from_str("pending"),
            Status::Completed => String::from_str("completed"),
            Status::Failed => String::from_str("failed"),
        }
    }

    /// The envelope for an outcome.
    pub fn response_to_value(&self, resp: &OperationResponse) -> (r: JsonVal)
        ensures
            r@ == envelope_of(resp@),
    {
        let mut es: Vec<(String, JsonVal)> = Vec::new();
        es.push((String::from_str("id"), JsonVal::Str(resp.id.clone())));
        es.push((String::from_str("status"), JsonVal::Str(Self::status_string(resp.status))));
        match &resp.result {
            Some(p) => {
                es.push((String::from_str("result"), deep_clone(p)));
            },
            None => {},
        }
        match &resp.error {
            Some(e) => {
                es.push((String::from_str("error"), JsonVal::Str(e.clone())));
            },
            None => {},
        }
        let r = JsonVal::Obj(es);
        proof {
            assert(entries_view(es@) =~= envelope_entries(resp@));
        }
        r
    }

    /// One invocation, from operation name and parameters to the envelope
    /// returned to the caller.
    pub fn call(&mut self, operation: &str, params: &JsonVal) -> (r: JsonVal)
        ensures
            exists|cid: Seq<char>, tid: Seq<char>, ts: Seq<char>|
                (r@, final(self)@) == #[trigger] call_spec(
                    old(self)@,
                    operation@,
                    params@,
                    cid,
                    tid,
                    ts,
                ),
    {
        if str_eq(operation, "/result/poll") {
            let r = self.poll(params);
            proof {
                assert((r@, self@) == call_spec(
                    old(self)@,
                    operation@,
                    params@,
                    Seq::<char>::empty(),
                    Seq::<char>::empty(),
                    Seq::<char>::empty(),
                ));
            }
            return r;
        }
        let id = crate::trusted::fresh_id();
        let ghost cid = id@;
        match self.route_operation(operation, params) {
            Ok(result) => {
                let ghost payload = crate::json::jval(result);
                let resp = OperationResponse {
                    id: id.clone(),
                    status: Status::Completed,
                    result: Some(result),
                    error: None,
                };
                if str_eq(operation, "/usage/track") {
                    let envelope = self.response_to_value(&resp);
                    self.store.set(id, resp);
                    proof {
                        let (tid, ts) = choose|tid: Seq<char>, ts: Seq<char>|
                            Ok::<JVal, Seq<char>>(payload) == route_spec(
                                operation@,
                                params@,
                                tid,
                                ts,
                            );
                        assert((envelope@, self@) == call_spec(
                            old(self)@,
                            operation@,
                            params@,
                            cid,
                            tid,
                            ts,
                        ));
                    }
                    envelope
                } else {
                    self.store.set(id.clone(), resp);
                    let mut es: Vec<(String, JsonVal)> = Vec::new();
                    es.push((String::from_str("id"), JsonVal::Str(id)));
                    es.push((String::from_str("status"), JsonVal::Str(String::from_str("pending"))));
                    let r = JsonVal::Obj(es);
                    proof {
                        let (tid, ts) = choose|tid: Seq<char>, ts: Seq<char>|
                            Ok::<JVal, Seq<char>>(payload) == route_spec(
                                operation@,
                                params@,
                                tid,
                                ts,
                            );
                        assert(entries_view(es@) =~= envelope_entries(
                            RespV { id: cid, status: Status::Pending, result: None, error: None },
                        ));
                        assert((r@, self@) == call_spec(
                            old(self)@,
                            operation@,
                            params@,
                            cid,
                            tid,
                            ts,
                        ));
                    }
                    r
                }
            },
            Err(error) => {
                let ghost msg = error@;
                let resp = OperationResponse {
                    id: id.clone(),
                    status: Status::Failed,
                    result: None,
                    error: Some(error.clone()),
                };
                self.store.set(id, resp);
                let mut es: Vec<(String, JsonVal)> = Vec::new();
                es.push((String::from_str("error"), JsonVal::Str(error)));
                let r = JsonVal::Obj(es);
                proof {
                    let (tid, ts) = choose|tid: Seq<char>, ts: Seq<char>|
                        Err::<JVal, Seq<char>>(msg) == route_spec(operation@, params@, tid, ts);
                    assert(entries_view(es@) =~= seq![("error"@, JVal::Str(msg))]);
                    assert((r@, self@) == call_spec(
                        old(self)@,
                        operation@,
                        params@,
                        cid,
                        tid,
                        ts,
                    ));
                }
                r
            },
        }
    }

    /// The poll path: looks the identifier up and reports the stored
    /// envelope, or that nothing is stored under it. Reads only.
    fn poll(&self, params: &JsonVal) -> (r: JsonVal)
        ensures
            r@ == poll_spec(self@, params@),
    {
        let pid = match lookup_str(params, "id") {
            Some(s) => s,
            None => {
                let mut es: Vec<(String, JsonVal)> = Vec::new();
                es.push(
                    (
                        String::from_str("error"),
                        JsonVal::Str(String::from_str("Missing required parameter: id")),
                    ),
                );
                let r = JsonVal::Obj(es);
                proof {
                    assert(entries_view(es@) =~= seq![
                        ("error"@, JVal::Str("Missing required parameter: id"@)),
                    ]);
                }
                return r;
            },
        };
        match self.store.get(pid.as_str()) {
            Some(stored) => self.response_to_value(&stored),
            None => {
                let msg = String::from_str("Result not found or expired: ").concat(pid.as_str());
                let ghost msgv = msg@;
                let mut es: Vec<(String, JsonVal)> = Vec::new();
                es.push((String::from_str("error"), JsonVal::Str(msg)));
                let r = JsonVal::Obj(es);
                proof {
                    assert(entries_view(es@) =~= seq![("error"@, JVal::Str(msgv))]);
                }
                r
            },
        }
    }
}

impl Default for DAO {
    fn default() -> (r: Self)
        ensures
            r@ == Map::<Seq<char>, RespV>::empty(),
    {
        Self::new()
    }
}

} // verus!
