use vstd::prelude::*;
use crate::error::RouterError;
use crate::extract::{outcome_value, statement_rows, value_rows};
use crate::method::Method;
use crate::router::{effective_binding, planned, Pending, Step};
use crate::session::{bind, name_index, name_index_at, name_index_spec, unbind, unique_names};
use crate::value::{Bound, Value};
use crate::commands::delete_target;

verus! {

/// Once a session variable is set, a request that does not bind the name
/// itself sees the value that was set.
pub proof fn set_var_is_bound(
    session: Seq<(Seq<char>, Value)>,
    name: Seq<char>,
    v: Value,
    call: Seq<(String, Value)>,
)
    requires
        forall|i: int| 0 <= i < call.len() ==> (#[trigger] call[i]).0@ != name,
    ensures
        effective_binding(bind(session, name, v), call, name) == Some(v),
    decreases call.len(),
{
    if call.len() > 0 {
        assert forall|i: int| 0 <= i < call.drop_last().len() implies (#[trigger] call.drop_last()[i]).0@ != name by {
            assert(call.drop_last()[i] == call[i]);
        }
        assert(call.last() == call[call.len() - 1]);
        set_var_is_bound(session, name, v, call.drop_last());
    } else {
        let es = bind(session, name, v);
        name_index_spec(session, name);
        let i = name_index(session, name);
        if i >= 0 {
            name_index_at(es, name, i);
        } else {
            name_index_at(es, name, session.len() as int);
        }
    }
}

/// Once a session variable is unset, a request that does not bind the name
/// itself sees no value for it.
pub proof fn unset_var_is_unbound(
    session: Seq<(Seq<char>, Value)>,
    name: Seq<char>,
    call: Seq<(String, Value)>,
)
    requires
        unique_names(session),
        forall|i: int| 0 <= i < call.len() ==> (#[trigger] call[i]).0@ != name,
    ensures
        effective_binding(unbind(session, name), call, name) is None,
    decreases call.len(),
{
    if call.len() > 0 {
        assert forall|i: int| 0 <= i < call.drop_last().len() implies (#[trigger] call.drop_last()[i]).0@ != name by {
            assert(call.drop_last()[i] == call[i]);
        }
        assert(call.last() == call[call.len() - 1]);
        unset_var_is_unbound(session, name, call.drop_last());
    } else {
        let es = unbind(session, name);
        name_index_spec(session, name);
        let i = name_index(session, name);
        assert forall|j: int| -1 < j < es.len() implies es[j].0 != name by {
            if i >= 0 {
                if j < i {
                    assert(es[j] == session[j]);
                } else {
                    assert(es[j] == session[j + 1]);
                }
            }
        }
        name_index_at(es, name, -1);
    }
}

/// Selecting a whole table asks for a collection, and every answer that
/// succeeds is one.
pub proof fn select_table_is_collection(
    params: Seq<Value>,
    r: Result<Step, RouterError>,
    outcome: Seq<Result<Value, String>>,
    v: Value,
)
    requires
        params.len() == 1 || params.len() == 2,
        params[0] is Table,
        planned(Method::Select, params, r),
    ensures
        r matches Ok(Step::Execute(_, Pending::Take(one))) && !one && (outcome_value(
            one,
            outcome,
            Ok::<Value, RouterError>(v),
        ) ==> v is Array),
{
}

/// Selecting one record asks for a single value, and every answer that
/// succeeds is the record's one row or the "no value" sentinel.
pub proof fn select_record_is_single(
    params: Seq<Value>,
    r: Result<Step, RouterError>,
    outcome: Seq<Result<Value, String>>,
    v: Value,
)
    requires
        params.len() == 1 || params.len() == 2,
        params[0] is Thing,
        planned(Method::Select, params, r),
    ensures
        r matches Ok(Step::Execute(_, Pending::Take(one))) && one && (outcome_value(
            one,
            outcome,
            Ok::<Value, RouterError>(v),
        ) ==> (v == Value::NoValue || (outcome.last() matches Ok(x) && value_rows(x) == seq![v]))),
{
}

/// A create of a record and a later select of the same record run over the
/// same target, and both hand back a single value, not a collection.
pub proof fn create_then_select_same_record(
    record: Value,
    data: Value,
    created: Result<Step, RouterError>,
    selected: Result<Step, RouterError>,
)
    requires
        record is Thing,
        planned(Method::Create, seq![record, data], created),
        planned(Method::Select, seq![record], selected),
    ensures
        created matches Ok(Step::Execute(c, Pending::Take(true))) && (c.bindings@[0].1 matches Value::Array(lc)
            && lc@ == seq![record]),
        selected matches Ok(Step::Execute(s, Pending::Take(true))) && (s.bindings@[0].1 matches Value::Array(ls)
            && ls@ == seq![record]),
{
    assert(seq![record, data][0] == record);
    assert(seq![record][0] == record);
}

/// A delete narrowed to a key range runs over that range of the table, and
/// over nothing else, whatever payload comes with it.
pub proof fn range_delete_targets_range(
    table: String,
    lo: Bound,
    hi: Bound,
    params: Seq<Value>,
    r: Result<Step, RouterError>,
)
    requires
        params.len() == 1 || params.len() == 2,
        delete_target(Value::Table(table), Some((lo, hi)), params[0]),
        planned(Method::Delete, params, r),
    ensures
        r matches Ok(Step::Execute(req, Pending::Take(true))) && req.bindings@.len() == 1 && (
        req.bindings@[0].1 matches Value::Array(l) && l@ == seq![Value::Range(table, lo, hi)]),
{
}

/// In a batch every statement keeps its own outcome: the answer has one
/// entry per statement, in order, and an entry fails exactly where its
/// statement failed.
pub proof fn batch_keeps_each_outcome(
    outcome: Seq<Result<Value, String>>,
    results: Seq<Result<Vec<Value>, RouterError>>,
)
    requires
        results.len() == outcome.len(),
        forall|i: int| 0 <= i < results.len() ==> statement_rows(#[trigger] outcome[i], results[i]),
    ensures
        forall|i: int| 0 <= i < results.len() ==> ((#[trigger] results[i]) is Ok <==> outcome[i] is Ok),
{
    assert forall|i: int| 0 <= i < results.len() implies ((#[trigger] results[i]) is Ok <==> outcome[i] is Ok) by {
        assert(statement_rows(outcome[i], results[i]));
    }
}

} // verus!
