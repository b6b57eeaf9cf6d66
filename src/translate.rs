use vstd::prelude::*;
use vstd::string::*;
use crate::error::RouterError;
use crate::method::Method;
use crate::value::Value;

verus! {

/// One statement for the engine: its text, the variables bound for it, and
/// whether the caller expects a single record (`one`) or a collection.
/// With `with_session` the connection's session variables are bound too,
/// beneath `bindings`.
#[derive(Debug)]
pub struct Request {
    pub text: String,
    pub bindings: Vec<(String, Value)>,
    pub one: bool,
    pub with_session: bool,
}

/// A target names a single record when it is a record identifier.
pub open spec fn is_record(what: Value) -> bool {
    what is Thing
}

/// `list` is the target in the engine's list form: an array stays as it is,
/// any other value becomes a list of one.
pub open spec fn flattened(what: Value, list: Value) -> bool {
    match what {
        Value::Array(vs) => list == Value::Array(vs),
        _ => list matches Value::Array(l) && l@ == seq![what],
    }
}

/// The parameters carry a payload: a second value that is not `NONE`.
pub open spec fn has_data(params: Seq<Value>) -> bool {
    params.len() == 2 && !(params[1] is NoValue)
}

/// `req` is the statement over the target `params[0]`, with the payload
/// `params[1]` bound as `$data` when there is one.
pub open spec fn target_request(
    params: Seq<Value>,
    req: Request,
    with_data: Seq<char>,
    bare: Seq<char>,
    one: bool,
) -> bool {
    &&& req.one == one
    &&& !req.with_session
    &&& req.text@ == (if has_data(params) { with_data } else { bare })
    &&& req.bindings@.len() == (if has_data(params) { 2int } else { 1int })
    &&& req.bindings@[0].0@ == "what"@
    &&& flattened(params[0], req.bindings@[0].1)
    &&& has_data(params) ==> req.bindings@[1].0@ == "data"@ && req.bindings@[1].1 == params[1]
}

/// Splits a target and an optional payload: whether the target is a single
/// record, the target in list form, and the payload (`NONE` when absent).
pub fn split_params(params: Vec<Value>, method: Method) -> (r: Result<(bool, Value, Value), RouterError>)
    ensures
        (params@.len() == 1 || params@.len() == 2) <==> r is Ok,
        r is Err ==> r == Err::<(bool, Value, Value), RouterError>(RouterError::InvalidParams(method)),
        r matches Ok((one, list, data)) ==> {
            &&& one == is_record(params@[0])
            &&& flattened(params@[0], list)
            &&& (params@.len() == 1 ==> data is NoValue)
            &&& (params@.len() == 2 ==> data == params@[1])
        },
{
    let mut params = params;
    if params.len() != 1 && params.len() != 2 {
        return Err(RouterError::InvalidParams(method));
    }
    let ghost given = params@;
    let data = if params.len() == 2 {
        params.pop().unwrap()
    } else {
        Value::NoValue
    };
    let what = params.pop().unwrap();
    assert(what == given[0]);
    let one = match what {
        Value::Thing(_, _) => true,
        _ => false,
    };
    let list = match what {
        Value::Array(vs) => Value::Array(vs),
        other => {
            let mut l: Vec<Value> = Vec::new();
            l.push(other);
            assert(l@ =~= seq![other]);
            Value::Array(l)
        },
    };
    Ok((one, list, data))
}

/// Builds the statement over a split target and payload.
fn target_statement(list: Value, data: Value, with_data: &str, bare: &str, one: bool) -> (r: Request)
    ensures
        r.one == one,
        !r.with_session,
        r.text@ == (if data is NoValue { bare@ } else { with_data@ }),
        r.bindings@.len() == (if data is NoValue { 1int } else { 2int }),
        r.bindings@[0].0@ == "what"@,
        r.bindings@[0].1 == list,
        !(data is NoValue) ==> r.bindings@[1].0@ == "data"@ && r.bindings@[1].1 == data,
{
    let mut bindings: Vec<(String, Value)> = Vec::new();
    bindings.push(("what".to_owned(), list));
    let text = match data {
        Value::NoValue => bare.to_owned(),
        payload => {
            bindings.push(("data".to_owned(), payload));
            with_data.to_owned()
        },
    };
    Request { text, bindings, one, with_session: false }
}

/// `CREATE` over the target, the payload as its content; returns the record
/// after the write. A create always yields a single record.
pub fn create_statement(params: Vec<Value>) -> (r: Result<Request, RouterError>)
    ensures
        (params@.len() == 1 || params@.len() == 2) <==> r is Ok,
        r is Err ==> r == Err::<Request, RouterError>(RouterError::InvalidParams(Method::Create)),
        r matches Ok(req) ==> target_request(
            params@,
            req,
            "CREATE $what CONTENT $data RETURN AFTER"@,
            "CREATE $what RETURN AFTER"@,
            true,
        ),
{
    let (_, list, data) = split_params(params, Method::Create)?;
    Ok(target_statement(list, data, "CREATE $what CONTENT $data RETURN AFTER", "CREATE $what RETURN AFTER", true))
}

/// `UPDATE` over the target, the payload replacing the content; returns the
/// records after the write.
pub fn update_statement(params: Vec<Value>) -> (r: Result<Request, RouterError>)
    ensures
        (params@.len() == 1 || params@.len() == 2) <==> r is Ok,
        r is Err ==> r == Err::<Request, RouterError>(RouterError::InvalidParams(Method::Update)),
        r matches Ok(req) ==> target_request(
            params@,
            req,
            "UPDATE $what CONTENT $data RETURN AFTER"@,
            "UPDATE $what RETURN AFTER"@,
            is_record(params@[0]),
        ),
{
    let (one, list, data) = split_params(params, Method::Update)?;
    Ok(target_statement(list, data, "UPDATE $what CONTENT $data RETURN AFTER", "UPDATE $what RETURN AFTER", one))
}

/// `UPDATE` over the target with the payload as a patch; returns the diff.
pub fn patch_statement(params: Vec<Value>) -> (r: Result<Request, RouterError>)
    ensures
        (params@.len() == 1 || params@.len() == 2) <==> r is Ok,
        r is Err ==> r == Err::<Request, RouterError>(RouterError::InvalidParams(Method::Patch)),
        r matches Ok(req) ==> target_request(
            params@,
            req,
            "UPDATE $what PATCH $data RETURN DIFF"@,
            "UPDATE $what RETURN DIFF"@,
            is_record(params@[0]),
        ),
{
    let (one, list, data) = split_params(params, Method::Patch)?;
    Ok(target_statement(list, data, "UPDATE $what PATCH $data RETURN DIFF", "UPDATE $what RETURN DIFF", one))
}

/// `UPDATE` over the target with the payload merged in; returns the records
/// after the write.
pub fn merge_statement(params: Vec<Value>) -> (r: Result<Request, RouterError>)
    ensures
        (params@.len() == 1 || params@.len() == 2) <==> r is Ok,
        r is Err ==> r == Err::<Request, RouterError>(RouterError::InvalidParams(Method::Merge)),
        r matches Ok(req) ==> target_request(
            params@,
            req,
            "UPDATE $what MERGE $data RETURN AFTER"@,
            "UPDATE $what RETURN AFTER"@,
            is_record(params@[0]),
        ),
{
    let (one, list, data) = split_params(params, Method::Merge)?;
    Ok(target_statement(list, data, "UPDATE $what MERGE $data RETURN AFTER", "UPDATE $what RETURN AFTER", one))
}

/// `SELECT *` over the target. A payload, if given, is ignored.
pub fn select_statement(params: Vec<Value>) -> (r: Result<Request, RouterError>)
    ensures
        (params@.len() == 1 || params@.len() == 2) <==> r is Ok,
        r is Err ==> r == Err::<Request, RouterError>(RouterError::InvalidParams(Method::Select)),
        r matches Ok(req) ==> target_request(
            seq![params@[0]],
            req,
            "SELECT * FROM $what"@,
            "SELECT * FROM $what"@,
            is_record(params@[0]),
        ),
{
    let (one, list, _) = split_params(params, Method::Select)?;
    Ok(target_statement(list, Value::NoValue, "SELECT * FROM $what", "SELECT * FROM $what", one))
}

/// `DELETE` over the target, with no rows returned. A payload, if given, is
/// ignored.
pub fn delete_statement(params: Vec<Value>) -> (r: Result<Request, RouterError>)
    ensures
        (params@.len() == 1 || params@.len() == 2) <==> r is Ok,
        r is Err ==> r == Err::<Request, RouterError>(RouterError::InvalidParams(Method::Delete)),
        r matches Ok(req) ==> target_request(
            seq![params@[0]],
            req,
            "DELETE $what RETURN NONE"@,
            "DELETE $what RETURN NONE"@,
            true,
        ),
{
    let (_, list, _) = split_params(params, Method::Delete)?;
    Ok(target_statement(list, Value::NoValue, "DELETE $what RETURN NONE", "DELETE $what RETURN NONE", true))
}

/// A character that may stand in a variable's name.
pub open spec fn is_name_char(c: char) -> bool {
    ('a' <= c && c <= 'z') || ('A' <= c && c <= 'Z') || ('0' <= c && c <= '9') || c == '_'
}

/// A name that can follow `$` in a statement.
pub open spec fn is_var_name(s: Seq<char>) -> bool {
    s.len() > 0 && forall|i: int| 0 <= i < s.len() ==> is_name_char(#[trigger] s[i])
}

/// Whether `name` is a valid variable name.
pub fn check_var_name(name: &str) -> (r: bool)
    ensures
        r == is_var_name(name@),
{
    let n = name.unicode_len();
    if n == 0 {
        return false;
    }
    let mut i: usize = 0;
    while i < n
        invariant
            n == name@.len(),
            i <= n,
            forall|j: int| 0 <= j < i ==> is_name_char(#[trigger] name@[j]),
        decreases n - i,
    {
        let c = name.get_char(i);
        if !(('a' <= c && c <= 'z') || ('A' <= c && c <= 'Z') || ('0' <= c && c <= '9') || c == '_') {
            return false;
        }
        i = i + 1;
    }
    true
}

/// `Set`: a name and a value. Checks that the name is a variable name and
/// builds `RETURN $name`, whose run surfaces a binding error before the value
/// is stored.
pub fn set_statement(params: Vec<Value>) -> (r: Result<(String, Value, Request), RouterError>)
    ensures
        r is Ok <==> (params@.len() == 2 && (params@[0] matches Value::Strand(n) && is_var_name(n@))),
        r is Err ==> r == Err::<(String, Value, Request), RouterError>(RouterError::InvalidParams(Method::SetVar)),
        r matches Ok((name, value, req)) ==> {
            &&& params@[0] == Value::Strand(name)
            &&& value == params@[1]
            &&& req.text@ == "RETURN $"@ + name@
            &&& req.bindings@.len() == 0
            &&& req.one
            &&& !req.with_session
        },
{
    let mut params = params;
    if params.len() != 2 {
        return Err(RouterError::InvalidParams(Method::SetVar));
    }
    let ghost given = params@;
    let value = params.pop().unwrap();
    let first = params.pop().unwrap();
    assert(first == given[0] && value == given[1]);
    match first {
        Value::Strand(name) => {
            if !check_var_name(name.as_str()) {
                return Err(RouterError::InvalidParams(Method::SetVar));
            }
            let mut text = <String as StringExecFns>::from_str("RETURN $");
            text.append(name.as_str());
            let req = Request { text, bindings: Vec::new(), one: true, with_session: false };
            Ok((name, value, req))
        },
        _ => Err(RouterError::InvalidParams(Method::SetVar)),
    }
}

/// `Unset`: the name of the variable to drop.
pub fn unset_name(params: Vec<Value>) -> (r: Result<String, RouterError>)
    ensures
        r is Ok <==> (params@.len() == 1 && params@[0] is Strand),
        r is Err ==> r == Err::<String, RouterError>(RouterError::InvalidParams(Method::Unset)),
        r matches Ok(name) ==> params@[0] == Value::Strand(name),
{
    let mut params = params;
    if params.len() != 1 {
        return Err(RouterError::InvalidParams(Method::Unset));
    }
    match params.pop().unwrap() {
        Value::Strand(name) => Ok(name),
        _ => Err(RouterError::InvalidParams(Method::Unset)),
    }
}

/// `Query`: the statement text, and optionally an object of variables bound
/// for this call only, over the session's variables.
pub fn query_statement(params: Vec<Value>) -> (r: Result<Request, RouterError>)
    ensures
        r is Ok <==> ((params@.len() == 1 && params@[0] is Strand) || (params@.len() == 2
            && params@[0] is Strand && params@[1] is Object)),
        r is Err ==> r == Err::<Request, RouterError>(RouterError::InvalidParams(Method::Query)),
        r matches Ok(req) ==> {
            &&& params@[0] == Value::Strand(req.text)
            &&& (params@.len() == 1 ==> req.bindings@.len() == 0)
            &&& (params@.len() == 2 ==> params@[1] == Value::Object(req.bindings))
            &&& !req.one
            &&& req.with_session
        },
{
    let mut params = params;
    if params.len() != 1 && params.len() != 2 {
        return Err(RouterError::InvalidParams(Method::Query));
    }
    let ghost given = params@;
    let bindings = if params.len() == 2 {
        match params.pop().unwrap() {
            Value::Object(fields) => fields,
            _ => return Err(RouterError::InvalidParams(Method::Query)),
        }
    } else {
        Vec::new()
    };
    match params.pop().unwrap() {
        Value::Strand(text) => {
            assert(given[0] == Value::Strand(text));
            Ok(Request { text, bindings, one: false, with_session: true })
        },
        _ => Err(RouterError::InvalidParams(Method::Query)),
    }
}

/// A statement over one value bound under `name`, yielding a single value.
fn single_statement(params: Vec<Value>, method: Method, name: &str, text: &str) -> (r: Result<Request, RouterError>)
    ensures
        r is Ok <==> params@.len() == 1,
        r is Err ==> r == Err::<Request, RouterError>(RouterError::InvalidParams(method)),
        r matches Ok(req) ==> {
            &&& req.text@ == text@
            &&& req.bindings@.len() == 1
            &&& req.bindings@[0].0@ == name@
            &&& req.bindings@[0].1 == params@[0]
            &&& req.one
            &&& !req.with_session
        },
{
    let mut params = params;
    if params.len() != 1 {
        return Err(RouterError::InvalidParams(method));
    }
    let v = params.pop().unwrap();
    let mut bindings: Vec<(String, Value)> = Vec::new();
    bindings.push((name.to_owned(), v));
    Ok(Request { text: text.to_owned(), bindings, one: true, with_session: false })
}

/// `Live`: subscribes to the changes of a table.
pub fn live_statement(params: Vec<Value>) -> (r: Result<Request, RouterError>)
    ensures
        r is Ok <==> params@.len() == 1,
        r is Err ==> r == Err::<Request, RouterError>(RouterError::InvalidParams(Method::Live)),
        r matches Ok(req) ==> {
            &&& req.text@ == "LIVE SELECT * FROM type::table($table)"@
            &&& req.bindings@.len() == 1
            &&& req.bindings@[0].0@ == "table"@
            &&& req.bindings@[0].1 == params@[0]
            &&& req.one
            &&& !req.with_session
        },
{
    single_statement(params, Method::Live, "table", "LIVE SELECT * FROM type::table($table)")
}

/// `Kill`: cancels a live query by its identifier.
pub fn kill_statement(params: Vec<Value>) -> (r: Result<Request, RouterError>)
    ensures
        r is Ok <==> params@.len() == 1,
        r is Err ==> r == Err::<Request, RouterError>(RouterError::InvalidParams(Method::Kill)),
        r matches Ok(req) ==> {
            &&& req.text@ == "KILL type::string($id)"@
            &&& req.bindings@.len() == 1
            &&& req.bindings@[0].0@ == "id"@
            &&& req.bindings@[0].1 == params@[0]
            &&& req.one
            &&& !req.with_session
        },
{
    single_statement(params, Method::Kill, "id", "KILL type::string($id)")
}

/// `Use`: the namespace and the database to switch to.
pub fn use_params(params: Vec<Value>) -> (r: Result<(String, String), RouterError>)
    ensures
        r is Ok <==> (params@.len() == 2 && params@[0] is Strand && params@[1] is Strand),
        r is Err ==> r == Err::<(String, String), RouterError>(RouterError::InvalidParams(Method::Use)),
        r matches Ok((ns, db)) ==> params@[0] == Value::Strand(ns) && params@[1] == Value::Strand(db),
{
    let mut params = params;
    if params.len() != 2 {
        return Err(RouterError::InvalidParams(Method::Use));
    }
    let ghost given = params@;
    let second = params.pop().unwrap();
    let first = params.pop().unwrap();
    assert(first == given[0] && second == given[1]);
    match (first, second) {
        (Value::Strand(ns), Value::Strand(db)) => Ok((ns, db)),
        _ => Err(RouterError::InvalidParams(Method::Use)),
    }
}

} // verus!
