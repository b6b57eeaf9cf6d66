use vstd::prelude::*;
use crate::error::RouterError;
use crate::method::Method;
use crate::router::DbResponse;
use crate::value::{Bound, Value};
use crate::version::{reads_version, version_from_reply, SemVersion};

verus! {

/// A command for the processing loop: the method and its parameters.
#[derive(Debug)]
pub struct Command {
    pub method: Method,
    pub params: Vec<Value>,
}

/// A delete of a record or of a table's records, optionally narrowed to a
/// range of keys.
#[derive(Debug)]
pub struct Delete {
    pub resource: Value,
    pub range: Option<(Bound, Bound)>,
}

/// The target that a delete of `resource`, narrowed to `range` when given,
/// runs over.
pub open spec fn delete_target(resource: Value, range: Option<(Bound, Bound)>, target: Value) -> bool {
    match range {
        None => target == resource,
        Some((lo, hi)) => resource matches Value::Table(t) && target == Value::Range(t, lo, hi),
    }
}

impl Delete {
    /// A delete of the whole resource.
    pub fn new(resource: Value) -> (r: Delete)
        ensures
            r.resource == resource,
            r.range is None,
    {
        Delete { resource, range: None }
    }

    /// Restricts the delete to the records whose keys lie between the bounds.
    pub fn range(self, lo: Bound, hi: Bound) -> (r: Delete)
        ensures
            r.resource == self.resource,
            r.range == Some((lo, hi)),
    {
        Delete { resource: self.resource, range: Some((lo, hi)) }
    }

    /// The command that performs the delete. A range needs a table.
    pub fn execute(self) -> (r: Result<Command, RouterError>)
        ensures
            r is Err <==> (self.range is Some && !(self.resource is Table)),
            r is Err ==> r == Err::<Command, RouterError>(RouterError::InvalidRange),
            r matches Ok(c) ==> c.method == Method::Delete && c.params@.len() == 1 && delete_target(
                self.resource,
                self.range,
                c.params@[0],
            ),
    {
        let target = match self.range {
            None => self.resource,
            Some((lo, hi)) => match self.resource {
                Value::Table(t) => Value::Range(t, lo, hi),
                _ => return Err(RouterError::InvalidRange),
            },
        };
        let mut params: Vec<Value> = Vec::new();
        params.push(target);
        Ok(Command { method: Method::Delete, params })
    }
}

/// A health check.
#[derive(Debug)]
pub struct Health {}

impl Health {
    pub fn new() -> (r: Health) {
        Health {}
    }

    /// The command that checks the backend's health.
    pub fn command(&self) -> (r: Command)
        ensures
            r.method == Method::Health,
            r.params@.len() == 0,
    {
        Command { method: Method::Health, params: Vec::new() }
    }
}

/// A request for the backend's version.
#[derive(Debug)]
pub struct Version {}

impl Version {
    pub fn new() -> (r: Version) {
        Version {}
    }

    /// The command that asks for the version.
    pub fn command(&self) -> (r: Command)
        ensures
            r.method == Method::Version,
            r.params@.len() == 0,
    {
        Command { method: Method::Version, params: Vec::new() }
    }

    /// Reads the version from the reply: see `version_from_reply`.
    pub fn finish(&self, reply: Value) -> (r: Result<SemVersion, RouterError>)
        ensures
            reads_version(reply, r),
    {
        version_from_reply(reply)
    }
}

/// The caller's side of one command: it turns the loop's answer into the
/// caller's result.
#[derive(Debug)]
pub struct Client {
    pub method: Method,
}

impl Client {
    pub fn new(method: Method) -> (r: Client)
        ensures
            r.method == method,
    {
        Client { method }
    }

    /// The value of a single-value answer. A batch answer here is a reply of
    /// the wrong shape.
    pub fn recv(&self, response: Result<DbResponse, RouterError>) -> (r: Result<Value, RouterError>)
        ensures
            match response {
                Ok(DbResponse::Other(v)) => r == Ok::<Value, RouterError>(v),
                Ok(DbResponse::Query(_)) => r == Err::<Value, RouterError>(RouterError::UnexpectedResponse),
                Err(e) => r == Err::<Value, RouterError>(e),
            },
    {
        match response? {
            DbResponse::Other(v) => Ok(v),
            DbResponse::Query(_) => Err(RouterError::UnexpectedResponse),
        }
    }

    /// The per-statement outcomes of a batch answer. A single-value answer
    /// here is a reply of the wrong shape.
    pub fn recv_query(&self, response: Result<DbResponse, RouterError>) -> (r: Result<Vec<Result<Vec<Value>, RouterError>>, RouterError>)
        ensures
            match response {
                Ok(DbResponse::Query(rs)) => r == Ok::<Vec<Result<Vec<Value>, RouterError>>, RouterError>(rs),
                Ok(DbResponse::Other(_)) => r == Err::<Vec<Result<Vec<Value>, RouterError>>, RouterError>(
                    RouterError::UnexpectedResponse,
                ),
                Err(e) => r == Err::<Vec<Result<Vec<Value>, RouterError>>, RouterError>(e),
            },
    {
        match response? {
            DbResponse::Query(rs) => Ok(rs),
            DbResponse::Other(_) => Err(RouterError::UnexpectedResponse),
        }
    }
}

} // verus!
