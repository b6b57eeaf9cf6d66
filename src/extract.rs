use vstd::prelude::*;
use crate::error::RouterError;
use crate::value::Value;

verus! {

/// The rows of one statement's outcome, as the extractor reads them: an array
/// gives its elements, `NONE` and `NULL` give no row, any other value is one row.
pub open spec fn value_rows(v: Value) -> Seq<Value> {
    match v {
        Value::Array(vs) => vs@,
        Value::NoValue | Value::Null => Seq::empty(),
        _ => seq![v],
    }
}

/// `out` is what the extractor makes of one statement's outcome: its rows, or
/// the engine's error as a query error.
pub open spec fn statement_rows(raw: Result<Value, String>, out: Result<Vec<Value>, RouterError>) -> bool {
    match raw {
        Ok(v) => out is Ok && out->Ok_0@ == value_rows(v),
        Err(e) => out == Err::<Vec<Value>, RouterError>(RouterError::Query(e)),
    }
}

/// Turns the engine's per-statement outcomes into per-statement row lists.
/// Each statement is taken on its own: a failed statement becomes a query
/// error in its own place and leaves its neighbours as they were.
pub fn into_value(responses: Vec<Result<Value, String>>) -> (r: Vec<Result<Vec<Value>, RouterError>>)
    ensures
        r@.len() == responses@.len(),
        forall|i: int| 0 <= i < r@.len() ==> statement_rows(#[trigger] responses@[i], r@[i]),
{
    let ghost all = responses@;
    let mut rest = responses;
    let mut out: Vec<Result<Vec<Value>, RouterError>> = Vec::new();
    while rest.len() > 0
        invariant
            out@.len() + rest@.len() == all.len(),
            rest@ == all.subrange(out@.len() as int, all.len() as int),
            forall|i: int| 0 <= i < out@.len() ==> statement_rows(#[trigger] all[i], out@[i]),
        decreases rest@.len(),
    {
        let raw = rest.remove(0);
        let ghost k = out@.len();
        let ghost old_out = out@;
        assert(raw == all[k as int]);
        let rows = match raw {
            Ok(Value::Array(vs)) => Ok(vs),
            Ok(Value::NoValue) | Ok(Value::Null) => {
                let none: Vec<Value> = Vec::new();
                assert(none@ =~= Seq::<Value>::empty());
                Ok(none)
            },
            Ok(v) => {
                let mut one_row: Vec<Value> = Vec::new();
                one_row.push(v);
                assert(one_row@ =~= seq![v]);
                Ok(one_row)
            },
            Err(e) => Err(RouterError::Query(e)),
        };
        assert(statement_rows(all[k as int], rows));
        out.push(rows);
        assert(forall|i: int| 0 <= i < k ==> out@[i] == old_out[i]);
        assert(rest@ =~= all.subrange(out@.len() as int, all.len() as int));
    }
    out
}

/// What `take` yields when the statement produced no rows.
pub open spec fn empty_result(one: bool, r: Result<Value, RouterError>) -> bool {
    if one {
        r == Ok::<Value, RouterError>(Value::NoValue)
    } else {
        r matches Ok(Value::Array(vs)) && vs@.len() == 0
    }
}

/// The one-or-many policy on the rows of the last statement: a single record
/// is asked for with `one`, a collection without it.
pub open spec fn take_rows(one: bool, rows: Seq<Value>, r: Result<Value, RouterError>) -> bool {
    if !one {
        r matches Ok(Value::Array(vs)) && vs@ == rows
    } else if rows.len() == 0 {
        r == Ok::<Value, RouterError>(Value::NoValue)
    } else if rows.len() == 1 {
        r == Ok::<Value, RouterError>(rows[0])
    } else {
        r == Err::<Value, RouterError>(RouterError::UnexpectedResponse)
    }
}

/// Reduces the per-statement rows of a request to the value the caller
/// receives, going by the last statement's outcome.
pub fn take(one: bool, results: Vec<Result<Vec<Value>, RouterError>>) -> (r: Result<Value, RouterError>)
    ensures
        results@.len() == 0 ==> empty_result(one, r),
        results@.len() > 0 ==> match results@.last() {
            Err(e) => r == Err::<Value, RouterError>(e),
            Ok(rows) => take_rows(one, rows@, r),
        },
{
    let mut results = results;
    match results.pop() {
        None => {
            if one {
                Ok(Value::NoValue)
            } else {
                Ok(Value::Array(Vec::new()))
            }
        },
        Some(Err(e)) => Err(e),
        Some(Ok(mut rows)) => {
            if !one {
                Ok(Value::Array(rows))
            } else if rows.len() == 0 {
                Ok(Value::NoValue)
            } else if rows.len() == 1 {
                let v = rows.pop().unwrap();
                Ok(v)
            } else {
                Err(RouterError::UnexpectedResponse)
            }
        },
    }
}


/// The value a request yields, read from the engine's outcome of its
/// statements: the last statement decides.
pub open spec fn outcome_value(one: bool, outcome: Seq<Result<Value, String>>, r: Result<Value, RouterError>) -> bool {
    if outcome.len() == 0 {
        empty_result(one, r)
    } else {
        match outcome.last() {
            Err(e) => r == Err::<Value, RouterError>(RouterError::Query(e)),
            Ok(v) => take_rows(one, value_rows(v), r),
        }
    }
}

/// Extracts the caller's value from the engine's outcome of one request.
pub fn take_outcome(one: bool, outcome: Vec<Result<Value, String>>) -> (r: Result<Value, RouterError>)
    ensures
        outcome_value(one, outcome@, r),
{
    let ghost raw = outcome@;
    let rows = into_value(outcome);
    if rows.len() > 0 {
        assert(statement_rows(raw[raw.len() - 1], rows@[rows@.len() - 1]));
    }
    take(one, rows)
}

} // verus!
