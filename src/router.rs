use vstd::prelude::*;
use indexmap::IndexMap;
use crate::error::RouterError;
use crate::extract::{into_value, outcome_value, statement_rows, take_outcome, value_rows};
use crate::method::Method;
use crate::session::{
    bind, lookup, lookup_some, map_entry, map_get, map_insert, map_len, map_new, map_remove, session_entries,
    unbind, unique_names,
};
use crate::translate::{
    create_statement, delete_statement, is_record, is_var_name, kill_statement, live_statement,
    merge_statement, patch_statement, query_statement, select_statement, set_statement,
    target_request, unset_name, update_statement, use_params, Request,
};
use crate::value::Value;

verus! {

/// The result of one command: a value for most methods, and for a raw query
/// the outcome of each of its statements, in order.
#[derive(Debug)]
pub enum DbResponse {
    Other(Value),
    Query(Vec<Result<Vec<Value>, RouterError>>),
}

/// What is left to do with the engine's outcome once a request has run.
#[derive(Debug)]
pub enum Pending {
    /// Extract a single record (`true`) or a collection.
    Take(bool),
    /// Hand back every statement's outcome.
    Batch,
    /// On success, store the value under the name.
    Store(String, Value),
}

/// The next thing the processing loop does for a command.
#[derive(Debug)]
pub enum Step {
    /// Run the request on the engine, then finish with `Pending`.
    Execute(Request, Pending),
    /// Answer at once.
    Reply(DbResponse),
    /// Bind the backend to a namespace and a database, then answer `NONE`.
    Switch(String, String),
}

/// The state that the processing loop of one connection owns: its session
/// variables and the backend's version string.
pub struct Router {
    vars: IndexMap<String, Value>,
    version: String,
}

/// `step` is what `plan` makes of a `method` and its `params`.
pub open spec fn planned(method: Method, params: Seq<Value>, r: Result<Step, RouterError>) -> bool {
    match method {
        Method::Create => (r is Ok <==> (params.len() == 1 || params.len() == 2)) && (r matches Ok(
            s,
        ) ==> (s matches Step::Execute(req, Pending::Take(true)) && target_request(
            params,
            req,
            "CREATE $what CONTENT $data RETURN AFTER"@,
            "CREATE $what RETURN AFTER"@,
            true,
        ))),
        Method::Update => (r is Ok <==> (params.len() == 1 || params.len() == 2)) && (r matches Ok(
            s,
        ) ==> (s matches Step::Execute(req, Pending::Take(one)) && one == is_record(params[0])
            && target_request(
            params,
            req,
            "UPDATE $what CONTENT $data RETURN AFTER"@,
            "UPDATE $what RETURN AFTER"@,
            one,
        ))),
        Method::Patch => (r is Ok <==> (params.len() == 1 || params.len() == 2)) && (r matches Ok(
            s,
        ) ==> (s matches Step::Execute(req, Pending::Take(one)) && one == is_record(params[0])
            && target_request(
            params,
            req,
            "UPDATE $what PATCH $data RETURN DIFF"@,
            "UPDATE $what RETURN DIFF"@,
            one,
        ))),
        Method::Merge => (r is Ok <==> (params.len() == 1 || params.len() == 2)) && (r matches Ok(
            s,
        ) ==> (s matches Step::Execute(req, Pending::Take(one)) && one == is_record(params[0])
            && target_request(
            params,
            req,
            "UPDATE $what MERGE $data RETURN AFTER"@,
            "UPDATE $what RETURN AFTER"@,
            one,
        ))),
        Method::Select => (r is Ok <==> (params.len() == 1 || params.len() == 2)) && (r matches Ok(
            s,
        ) ==> (s matches Step::Execute(req, Pending::Take(one)) && one == is_record(params[0])
            && target_request(
            seq![params[0]],
            req,
            "SELECT * FROM $what"@,
            "SELECT * FROM $what"@,
            one,
        ))),
        Method::Delete => (r is Ok <==> (params.len() == 1 || params.len() == 2)) && (r matches Ok(
            s,
        ) ==> (s matches Step::Execute(req, Pending::Take(true)) && target_request(
            seq![params[0]],
            req,
            "DELETE $what RETURN NONE"@,
            "DELETE $what RETURN NONE"@,
            true,
        ))),
        Method::Query => (r is Ok <==> ((params.len() == 1 && params[0] is Strand) || (params.len()
            == 2 && params[0] is Strand && params[1] is Object))) && (r matches Ok(s) ==> (s matches Step::Execute(
            req,
            Pending::Batch,
        ) && params[0] == Value::Strand(req.text) && req.with_session && (params.len() == 1
            ==> req.bindings@.len() == 0) && (params.len() == 2 ==> params[1] == Value::Object(
            req.bindings,
        )))),
        Method::SetVar => (r is Ok <==> (params.len() == 2 && (params[0] matches Value::Strand(n)
            && is_var_name(n@)))) && (r matches Ok(s) ==> (s matches Step::Execute(
            req,
            Pending::Store(name, value),
        ) && params[0] == Value::Strand(name) && value == params[1] && req.text@ == "RETURN $"@
            + name@ && req.bindings@.len() == 0)),
        Method::Unset => (r is Ok <==> (params.len() == 1 && params[0] is Strand)) && (r matches Ok(
            s,
        ) ==> s matches Step::Reply(DbResponse::Other(Value::NoValue))),
        Method::Live => (r is Ok <==> params.len() == 1) && (r matches Ok(s) ==> (s matches Step::Execute(
            req,
            Pending::Take(true),
        ) && req.text@ == "LIVE SELECT * FROM type::table($table)"@ && req.bindings@.len() == 1
            && req.bindings@[0].0@ == "table"@ && req.bindings@[0].1 == params[0])),
        Method::Kill => (r is Ok <==> params.len() == 1) && (r matches Ok(s) ==> (s matches Step::Execute(
            req,
            Pending::Take(true),
        ) && req.text@ == "KILL type::string($id)"@ && req.bindings@.len() == 1
            && req.bindings@[0].0@ == "id"@ && req.bindings@[0].1 == params[0])),
        Method::Use => (r is Ok <==> (params.len() == 2 && params[0] is Strand && params[1] is Strand))
            && (r matches Ok(s) ==> (s matches Step::Switch(ns, db) && params[0] == Value::Strand(ns)
            && params[1] == Value::Strand(db))),
        Method::Health => r matches Ok(Step::Reply(DbResponse::Other(Value::NoValue))),
        Method::Version => r matches Ok(Step::Reply(DbResponse::Other(Value::Strand(_)))),
        _ => r == Err::<Step, RouterError>(RouterError::Unsupported(method)),
    }
}

/// The engine's outcome of a single-value request is a success: no statement,
/// or a last statement that ran and gave at most one row.
pub open spec fn check_passes(outcome: Seq<Result<Value, String>>) -> bool {
    outcome.len() == 0 || (outcome.last() is Ok && value_rows(outcome.last()->Ok_0).len() <= 1)
}

/// The value bound to `name` for a request: the last binding of the call
/// that has the name, else the session's.
pub open spec fn effective_binding(
    session: Seq<(Seq<char>, Value)>,
    call: Seq<(String, Value)>,
    name: Seq<char>,
) -> Option<Value>
    decreases call.len(),
{
    if call.len() == 0 {
        lookup(session, name)
    } else if call.last().0@ == name {
        Some(call.last().1)
    } else {
        effective_binding(session, call.drop_last(), name)
    }
}

/// Some entry of `out` has the name.
pub open spec fn out_has(out: Seq<(&String, &Value)>, name: Seq<char>) -> bool {
    exists|i: int| 0 <= i < out.len() && (#[trigger] out[i]).0@ == name
}

/// Some session entry has the name.
pub open spec fn session_has(session: Seq<(Seq<char>, Value)>, name: Seq<char>) -> bool {
    exists|k: int| 0 <= k < session.len() && (#[trigger] session[k]).0 == name
}

/// One of the first `upto` bindings of the call has the name.
pub open spec fn call_has(call: Seq<(String, Value)>, name: Seq<char>, upto: int) -> bool {
    exists|j: int| 0 <= j < upto && (#[trigger] call[j]).0@ == name
}

/// A name that the call binds, or that the session binds, is bound.
pub proof fn effective_binding_some(session: Seq<(Seq<char>, Value)>, call: Seq<(String, Value)>, name: Seq<char>)
    ensures
        effective_binding(session, call, name) is Some <==> (lookup(session, name) is Some || call_has(
            call,
            name,
            call.len() as int,
        )),
    decreases call.len(),
{
    if call.len() > 0 {
        effective_binding_some(session, call.drop_last(), name);
        if call_has(call, name, call.len() as int) && call.last().0@ != name {
            let j = choose|j: int| 0 <= j < call.len() && (#[trigger] call[j]).0@ == name;
            assert(call.drop_last()[j] == call[j]);
        }
        if call_has(call.drop_last(), name, call.len() - 1) {
            let j = choose|j: int| 0 <= j < call.len() - 1 && (#[trigger] call.drop_last()[j]).0@ == name;
            assert(call.drop_last()[j] == call[j]);
        }
        if call.last().0@ == name {
            assert(call[call.len() - 1] == call.last());
        }
    }
}

/// Whether some entry of `out` has the name.
fn out_contains(out: &Vec<(&String, &Value)>, name: &String) -> (r: bool)
    ensures
        r == out_has(out@, name@),
{
    let mut k: usize = 0;
    while k < out.len()
        invariant
            k <= out@.len(),
            forall|q: int| 0 <= q < k ==> (#[trigger] out@[q]).0@ != name@,
        decreases out@.len() - k,
    {
        if *out[k].0 == *name {
            return true;
        }
        k = k + 1;
    }
    false
}

impl Router {
    /// The session variables, in the order they were first set.
    pub closed spec fn entries(&self) -> Seq<(Seq<char>, Value)> {
        session_entries(self.vars)
    }

    /// The backend's version string.
    pub closed spec fn version_text(&self) -> Seq<char> {
        self.version@
    }

    pub open spec fn wf(&self) -> bool {
        unique_names(self.entries())
    }

    /// A router with no session variables, for a backend that reports
    /// `version` as its version.
    pub fn new(version: String) -> (r: Router)
        ensures
            r.wf(),
            r.entries() == Seq::<(Seq<char>, Value)>::empty(),
            r.version_text() == version@,
    {
        let r = Router { vars: map_new(), version };
        assert(unique_names(r.entries()));
        r
    }

    /// The number of session variables.
    pub fn session_len(&self) -> (r: usize)
        ensures
            r == self.entries().len(),
    {
        map_len(&self.vars)
    }

    /// The session variable at a position, in the order they were first set.
    pub fn session_entry(&self, i: usize) -> (r: (&String, &Value))
        requires
            i < self.entries().len(),
        ensures
            r.0@ == self.entries()[i as int].0,
            *r.1 == self.entries()[i as int].1,
    {
        map_entry(&self.vars, i)
    }

    /// The session variable stored under `name`.
    pub fn session_var(&self, name: &String) -> (r: Option<&Value>)
        ensures
            r is Some <==> lookup(self.entries(), name@) is Some,
            r matches Some(v) ==> lookup(self.entries(), name@) == Some(*v),
    {
        map_get(&self.vars, name)
    }

    /// The session variables, or none.
    pub open spec fn seen(&self, with_session: bool) -> Seq<(Seq<char>, Value)> {
        if with_session {
            self.entries()
        } else {
            Seq::empty()
        }
    }

    /// The session variables that a request sees: all of them, or none.
    pub open spec fn scope(&self, req: &Request) -> Seq<(Seq<char>, Value)> {
        self.seen(req.with_session)
    }

    /// The value that a request binds to `name`: the call's own bindings
    /// over the session variables.
    pub fn binding<'a>(&'a self, call: &'a Vec<(String, Value)>, name: &String) -> (r: Option<&'a Value>)
        ensures
            r is Some <==> effective_binding(self.entries(), call@, name@) is Some,
            r matches Some(v) ==> effective_binding(self.entries(), call@, name@) == Some(*v),
    {
        self.find_binding(call, name, true)
    }

    fn find_binding<'a>(&'a self, call: &'a Vec<(String, Value)>, name: &String, with_session: bool) -> (r: Option<&'a Value>)
        ensures
            r is Some <==> effective_binding(self.seen(with_session), call@, name@) is Some,
            r matches Some(v) ==> effective_binding(self.seen(with_session), call@, name@) == Some(*v),
    {
        let ghost session = self.seen(with_session);
        let mut i: usize = call.len();
        assert(call@.subrange(0, i as int) =~= call@);
        while i > 0
            invariant
                session == self.seen(with_session),
                i <= call@.len(),
                effective_binding(session, call@, name@) == effective_binding(
                    session,
                    call@.subrange(0, i as int),
                    name@,
                ),
            decreases i,
        {
            assert(call@.subrange(0, i as int).drop_last() =~= call@.subrange(0, i - 1));
            if call[i - 1].0 == *name {
                assert(call@.subrange(0, i as int).last() == call@[i - 1]);
                return Some(&call[i - 1].1);
            }
            i = i - 1;
        }
        if with_session {
            self.session_var(name)
        } else {
            None
        }
    }

    /// The variables bound for a request: every name of the session (when
    /// the request sees it) and of the call, once each, with the value that
    /// the request sees for it.
    pub fn bound_vars<'a>(&'a self, req: &'a Request) -> (r: Vec<(&'a String, &'a Value)>)
        requires
            self.wf(),
        ensures
            forall|i: int, j: int| 0 <= i < j < r@.len() ==> r@[i].0@ != r@[j].0@,
            forall|i: int| 0 <= i < r@.len() ==> effective_binding(self.scope(req), req.bindings@, (#[trigger] r@[i]).0@)
                == Some(*r@[i].1),
            forall|name: Seq<char>| #[trigger] out_has(r@, name) <==> (session_has(self.scope(req), name)
                || call_has(req.bindings@, name, req.bindings@.len() as int)),
    {
        let ghost sc = self.scope(req);
        let ghost call = req.bindings@;
        let mut out: Vec<(&'a String, &'a Value)> = Vec::new();
        if req.with_session {
            let n = self.session_len();
            let mut i: usize = 0;
            while i < n
                invariant
                    self.wf(),
                    req.with_session,
                    sc == self.entries(),
                    call == req.bindings@,
                    n == sc.len(),
                    i <= n,
                    out@.len() == i,
                    forall|k: int| 0 <= k < i ==> (#[trigger] out@[k]).0@ == sc[k].0,
                    forall|k: int| 0 <= k < i ==> effective_binding(sc, call, (#[trigger] out@[k]).0@) == Some(*out@[k].1),
                decreases n - i,
            {
                let (name, _) = self.session_entry(i);
                proof {
                    lookup_some(sc, name@);
                    assert(sc[i as int].0 == name@);
                    effective_binding_some(sc, call, name@);
                }
                match self.find_binding(&req.bindings, name, true) {
                    Some(v) => out.push((name, v)),
                    None => {
                        assert(false);
                    },
                }
                i = i + 1;
            }
        }
        assert forall|name: Seq<char>| #[trigger] out_has(out@, name) <==> session_has(sc, name) by {
            if out_has(out@, name) {
                let i = choose|i: int| 0 <= i < out@.len() && (#[trigger] out@[i]).0@ == name;
                assert(sc[i].0 == name);
            }
            if session_has(sc, name) {
                let k = choose|k: int| 0 <= k < sc.len() && (#[trigger] sc[k]).0 == name;
                assert(out@[k].0@ == name);
            }
        }
        let mut j: usize = 0;
        while j < req.bindings.len()
            invariant
                self.wf(),
                sc == self.scope(req),
                call == req.bindings@,
                j <= call.len(),
                forall|a: int, b: int| 0 <= a < b < out@.len() ==> out@[a].0@ != out@[b].0@,
                forall|k: int| 0 <= k < out@.len() ==> effective_binding(sc, call, (#[trigger] out@[k]).0@) == Some(*out@[k].1),
                forall|name: Seq<char>| #[trigger] out_has(out@, name) <==> (session_has(sc, name) || call_has(call, name, j as int)),
            decreases call.len() - j,
        {
            let name = &req.bindings[j].0;
            let ghost before = out@;
            if !out_contains(&out, name) {
                proof {
                    lookup_some(sc, name@);
                    assert(call[j as int].0@ == name@);
                    effective_binding_some(sc, call, name@);
                }
                match self.find_binding(&req.bindings, name, req.with_session) {
                    Some(v) => out.push((name, v)),
                    None => {
                        assert(false);
                    },
                }
                assert forall|a: int, b: int| 0 <= a < b < out@.len() implies out@[a].0@ != out@[b].0@ by {
                    if b == before.len() {
                        assert(out@[a] == before[a]);
                    }
                }
                assert forall|k: int| 0 <= k < out@.len() implies effective_binding(sc, call, (#[trigger] out@[k]).0@) == Some(*out@[k].1) by {
                    if k < before.len() {
                        assert(out@[k] == before[k]);
                    }
                }
            }
            assert forall|n2: Seq<char>| #[trigger] out_has(out@, n2) <==> (session_has(sc, n2) || call_has(call, n2, j + 1)) by {
                if out_has(out@, n2) {
                    let i = choose|i: int| 0 <= i < out@.len() && (#[trigger] out@[i]).0@ == n2;
                    if i < before.len() {
                        assert(before[i] == out@[i]);
                        assert(out_has(before, n2));
                        if call_has(call, n2, j as int) {
                            let q = choose|q: int| 0 <= q < j && (#[trigger] call[q]).0@ == n2;
                            assert(call[q].0@ == n2);
                        }
                    } else {
                        assert(call[j as int].0@ == n2);
                    }
                }
                if call_has(call, n2, j + 1) {
                    let q = choose|q: int| 0 <= q < j + 1 && (#[trigger] call[q]).0@ == n2;
                    if q < j {
                        assert(call_has(call, n2, j as int));
                        assert(out_has(before, n2));
                        let i = choose|i: int| 0 <= i < before.len() && (#[trigger] before[i]).0@ == n2;
                        assert(out@[i] == before[i]);
                    } else if out@.len() > before.len() {
                        assert(out@[before.len() as int].0@ == n2);
                    } else {
                        assert(out_has(before, n2));
                    }
                }
                if session_has(sc, n2) {
                    assert(out_has(before, n2));
                    let i = choose|i: int| 0 <= i < before.len() && (#[trigger] before[i]).0@ == n2;
                    assert(out@[i] == before[i]);
                }
            }
            j = j + 1;
        }
        out
    }

    /// Decides what the processing loop does for one command. Only `Unset`
    /// changes the session here, by dropping the name.
    pub fn plan(&mut self, method: Method, params: Vec<Value>) -> (r: Result<Step, RouterError>)
        requires
            old(self).wf(),
        ensures
            final(self).wf(),
            planned(method, params@, r),
            r is Err ==> r == Err::<Step, RouterError>(RouterError::InvalidParams(method))
                || r == Err::<Step, RouterError>(RouterError::Unsupported(method)),
            method == Method::Version ==> (r matches Ok(Step::Reply(DbResponse::Other(Value::Strand(v))))
                && v@ == old(self).version_text()),
            final(self).version_text() == old(self).version_text(),
            (method == Method::Unset && r is Ok) ==> (params@[0] matches Value::Strand(n)
                && final(self).entries() == unbind(old(self).entries(), n@)),
            !(method == Method::Unset && r is Ok) ==> final(self).entries() == old(self).entries(),
    {
        match method {
            Method::Create => {
                let req = create_statement(params)?;
                Ok(Step::Execute(req, Pending::Take(true)))
            },
            Method::Update => {
                let req = update_statement(params)?;
                let one = req.one;
                Ok(Step::Execute(req, Pending::Take(one)))
            },
            Method::Patch => {
                let req = patch_statement(params)?;
                let one = req.one;
                Ok(Step::Execute(req, Pending::Take(one)))
            },
            Method::Merge => {
                let req = merge_statement(params)?;
                let one = req.one;
                Ok(Step::Execute(req, Pending::Take(one)))
            },
            Method::Select => {
                let req = select_statement(params)?;
                let one = req.one;
                Ok(Step::Execute(req, Pending::Take(one)))
            },
            Method::Delete => {
                let req = delete_statement(params)?;
                Ok(Step::Execute(req, Pending::Take(true)))
            },
            Method::Query => {
                let req = query_statement(params)?;
                Ok(Step::Execute(req, Pending::Batch))
            },
            Method::SetVar => {
                let (name, value, req) = set_statement(params)?;
                Ok(Step::Execute(req, Pending::Store(name, value)))
            },
            Method::Unset => {
                let name = unset_name(params)?;
                map_remove(&mut self.vars, &name);
                Ok(Step::Reply(DbResponse::Other(Value::NoValue)))
            },
            Method::Live => {
                let req = live_statement(params)?;
                Ok(Step::Execute(req, Pending::Take(true)))
            },
            Method::Kill => {
                let req = kill_statement(params)?;
                Ok(Step::Execute(req, Pending::Take(true)))
            },
            Method::Use => {
                let (ns, db) = use_params(params)?;
                Ok(Step::Switch(ns, db))
            },
            Method::Health => Ok(Step::Reply(DbResponse::Other(Value::NoValue))),
            Method::Version => Ok(Step::Reply(DbResponse::Other(Value::Strand(self.version.clone())))),
            _ => Err(RouterError::Unsupported(method)),
        }
    }

    /// Finishes a command from the engine's outcome of its request. A
    /// `Store` keeps the value only when the check succeeded.
    pub fn complete(&mut self, pending: Pending, outcome: Vec<Result<Value, String>>) -> (r: Result<DbResponse, RouterError>)
        requires
            old(self).wf(),
        ensures
            final(self).wf(),
            final(self).version_text() == old(self).version_text(),
            match pending {
                Pending::Take(one) => {
                    &&& final(self).entries() == old(self).entries()
                    &&& match r {
                        Ok(DbResponse::Other(v)) => outcome_value(one, outcome@, Ok::<Value, RouterError>(v)),
                        Ok(DbResponse::Query(_)) => false,
                        Err(e) => outcome_value(one, outcome@, Err::<Value, RouterError>(e)),
                    }
                },
                Pending::Batch => {
                    &&& final(self).entries() == old(self).entries()
                    &&& r matches Ok(DbResponse::Query(results))
                    &&& results@.len() == outcome@.len()
                    &&& forall|i: int| 0 <= i < results@.len() ==> statement_rows(
                        #[trigger] outcome@[i],
                        results@[i],
                    )
                },
                Pending::Store(name, value) => {
                    &&& (r is Ok <==> check_passes(outcome@))
                    &&& r is Ok ==> r == Ok::<DbResponse, RouterError>(DbResponse::Other(Value::NoValue))
                        && final(self).entries() == bind(old(self).entries(), name@, value)
                    &&& r matches Err(e) ==> outcome_value(true, outcome@, Err::<Value, RouterError>(e))
                        && final(self).entries() == old(self).entries()
                },
            },
    {
        match pending {
            Pending::Take(one) => {
                let v = take_outcome(one, outcome)?;
                Ok(DbResponse::Other(v))
            },
            Pending::Batch => Ok(DbResponse::Query(into_value(outcome))),
            Pending::Store(name, value) => {
                match take_outcome(true, outcome) {
                    Ok(_) => {
                        map_insert(&mut self.vars, name, value);
                        Ok(DbResponse::Other(Value::NoValue))
                    },
                    Err(e) => Err(e),
                }
            },
        }
    }
}

} // verus!
