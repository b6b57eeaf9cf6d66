use surreal_router::commands::{Client, Delete, Health, Version};
use surreal_router::error::RouterError;
use surreal_router::method::Method;
use surreal_router::router::{DbResponse, Pending, Router, Step};
use surreal_router::value::{Bound, Id, Value};
use surreal_router::version::{trim_prefixes, version_from_reply, version_reply};

fn s(x: &str) -> Value {
    Value::Strand(x.to_string())
}

fn router() -> Router {
    Router::new("surrealdb-1.2.3".to_string())
}

fn set(r: &mut Router, name: &str, v: Value) -> Result<DbResponse, RouterError> {
    match r.plan(Method::SetVar, vec![s(name), v]).unwrap() {
        Step::Execute(req, pending) => {
            assert_eq!(req.text, format!("RETURN ${}", name));
            r.complete(pending, vec![Ok(Value::NoValue)])
        }
        other => panic!("unexpected {:?}", other),
    }
}

#[test]
fn session_variables_set_then_unset() {
    let mut r = router();
    assert!(matches!(set(&mut r, "x", Value::Number(42)), Ok(DbResponse::Other(Value::NoValue))));
    match r.plan(Method::Query, vec![s("RETURN $x")]).unwrap() {
        Step::Execute(req, Pending::Batch) => {
            assert!(req.with_session);
            let name = "x".to_string();
            assert!(matches!(r.binding(&req.bindings, &name), Some(Value::Number(42))));
        }
        other => panic!("unexpected {:?}", other),
    }
    assert!(matches!(r.plan(Method::Unset, vec![s("x")]), Ok(Step::Reply(DbResponse::Other(Value::NoValue)))));
    assert_eq!(r.session_len(), 0);
    let name = "x".to_string();
    assert!(r.binding(&vec![], &name).is_none());
    // unsetting a name that is not there is no error
    assert!(r.plan(Method::Unset, vec![s("x")]).is_ok());
}

#[test]
fn call_bindings_overlay_session() {
    let mut r = router();
    set(&mut r, "x", Value::Number(1)).unwrap();
    set(&mut r, "y", Value::Number(2)).unwrap();
    set(&mut r, "x", Value::Number(3)).unwrap();
    assert_eq!(r.session_len(), 2);
    let (k0, v0) = r.session_entry(0);
    assert_eq!(k0, "x");
    assert!(matches!(v0, Value::Number(3)));
    let call = vec![("y".to_string(), Value::Number(9))];
    assert!(matches!(r.binding(&call, &"y".to_string()), Some(Value::Number(9))));
    assert!(matches!(r.binding(&call, &"x".to_string()), Some(Value::Number(3))));
    assert!(matches!(r.session_var(&"y".to_string()), Some(Value::Number(2))));
}

#[test]
fn failed_set_check_stores_nothing() {
    let mut r = router();
    match r.plan(Method::SetVar, vec![s("x"), Value::Number(1)]).unwrap() {
        Step::Execute(_, pending) => {
            let out = r.complete(pending, vec![Err("bad".to_string())]);
            assert!(matches!(out, Err(RouterError::Query(_))));
        }
        other => panic!("unexpected {:?}", other),
    }
    assert_eq!(r.session_len(), 0);
}

#[test]
fn commands_in_sequence_see_earlier_effects() {
    let mut r = router();
    set(&mut r, "a", s("first")).unwrap();
    match r.plan(Method::Query, vec![s("RETURN $a")]).unwrap() {
        Step::Execute(req, _) => {
            assert!(matches!(r.binding(&req.bindings, &"a".to_string()), Some(Value::Strand(v)) if v == "first"))
        }
        other => panic!("unexpected {:?}", other),
    }
}

#[test]
fn batch_query_reports_each_statement() {
    let mut r = router();
    let out = r.complete(
        Pending::Batch,
        vec![Ok(Value::Array(vec![s("a")])), Err("parse".to_string()), Ok(Value::Array(vec![s("b")]))],
    );
    let results = Client::new(Method::Query).recv_query(out).unwrap();
    assert_eq!(results.len(), 3);
    assert!(results[0].is_ok() && results[1].is_err() && results[2].is_ok());
}

#[test]
fn plan_select_shapes() {
    let mut r = router();
    match r.plan(Method::Select, vec![Value::Table("person".to_string())]).unwrap() {
        Step::Execute(_, Pending::Take(one)) => assert!(!one),
        other => panic!("unexpected {:?}", other),
    }
    match r.plan(Method::Select, vec![Value::Thing("person".to_string(), Id::Number(1))]).unwrap() {
        Step::Execute(_, Pending::Take(one)) => assert!(one),
        other => panic!("unexpected {:?}", other),
    }
    let empty = r.complete(Pending::Take(false), vec![Ok(Value::NoValue)]).unwrap();
    assert!(matches!(empty, DbResponse::Other(Value::Array(v)) if v.is_empty()));
    let absent = r.complete(Pending::Take(true), vec![Ok(Value::Array(vec![]))]).unwrap();
    assert!(matches!(absent, DbResponse::Other(Value::NoValue)));
}

#[test]
fn plan_create_is_single() {
    let mut r = router();
    let data = Value::Object(vec![("n".to_string(), Value::Number(1))]);
    match r.plan(Method::Create, vec![Value::Table("person".to_string()), data]).unwrap() {
        Step::Execute(req, Pending::Take(one)) => {
            assert!(one);
            assert_eq!(req.text, "CREATE $what CONTENT $data RETURN AFTER");
        }
        other => panic!("unexpected {:?}", other),
    }
}

#[test]
fn plan_other_methods() {
    let mut r = router();
    assert!(matches!(r.plan(Method::Health, vec![]), Ok(Step::Reply(DbResponse::Other(Value::NoValue)))));
    assert!(matches!(r.plan(Method::Version, vec![]), Ok(Step::Reply(DbResponse::Other(Value::Strand(v)))) if v == "surrealdb-1.2.3"));
    assert!(matches!(r.plan(Method::Use, vec![s("ns"), s("db")]), Ok(Step::Switch(n, d)) if n == "ns" && d == "db"));
    assert!(matches!(r.plan(Method::Signin, vec![]), Err(RouterError::Unsupported(Method::Signin))));
    assert!(matches!(r.plan(Method::Export, vec![]), Err(RouterError::Unsupported(Method::Export))));
    assert!(matches!(r.plan(Method::Create, vec![]), Err(RouterError::InvalidParams(Method::Create))));
    match r.plan(Method::Live, vec![s("person")]).unwrap() {
        Step::Execute(req, Pending::Take(true)) => assert_eq!(req.text, "LIVE SELECT * FROM type::table($table)"),
        other => panic!("unexpected {:?}", other),
    }
}

#[test]
fn delete_range_targets_keys() {
    let d = Delete::new(Value::Table("t".to_string()))
        .range(Bound::Included(Id::Number(3)), Bound::Excluded(Id::Number(7)));
    let c = d.execute().unwrap();
    assert_eq!(c.method, Method::Delete);
    assert!(matches!(
        &c.params[..],
        [Value::Range(t, Bound::Included(Id::Number(3)), Bound::Excluded(Id::Number(7)))] if t == "t"
    ));
    let mut r = router();
    match r.plan(c.method, c.params).unwrap() {
        Step::Execute(req, Pending::Take(true)) => {
            assert_eq!(req.text, "DELETE $what RETURN NONE");
            assert!(matches!(&req.bindings[0].1, Value::Array(v) if matches!(v[..], [Value::Range(..)])));
        }
        other => panic!("unexpected {:?}", other),
    }
}

#[test]
fn delete_range_needs_table() {
    let d = Delete::new(Value::Thing("t".to_string(), Id::Number(1)))
        .range(Bound::Unbounded, Bound::Unbounded);
    assert!(matches!(d.execute(), Err(RouterError::InvalidRange)));
    let c = Delete::new(Value::Thing("t".to_string(), Id::Text("a".to_string()))).execute().unwrap();
    assert!(matches!(&c.params[..], [Value::Thing(_, Id::Text(k))] if k == "a"));
}

#[test]
fn version_parsing() {
    let v = version_from_reply(s("surrealdb-1.2.3")).unwrap();
    assert_eq!((v.major, v.minor, v.patch), (1, 2, 3));
    assert_eq!(v.pre, "");
    let v = Version::new().finish(s("surrealdb-2.0.0-beta.1+build5")).unwrap();
    assert_eq!((v.major, v.minor, v.patch), (2, 0, 0));
    assert_eq!(v.pre, "beta.1");
    assert_eq!(v.build, "build5");
    assert!(matches!(version_from_reply(s("surrealdb-one.two")), Err(RouterError::InvalidVersion(t)) if t == "one.two"));
    assert!(matches!(version_from_reply(s("surrealdb-")), Err(RouterError::InvalidVersion(t)) if t.is_empty()));
    assert!(matches!(version_from_reply(Value::Number(1)), Err(RouterError::UnexpectedResponse)));
}

#[test]
fn prefix_trimming() {
    assert_eq!(trim_prefixes("surrealdb-surrealdb-1.0.0", "surrealdb-"), "1.0.0");
    assert_eq!(trim_prefixes("1.0.0", "surrealdb-"), "1.0.0");
    assert_eq!(trim_prefixes("surreal", "surrealdb-"), "surreal");
    assert_eq!(trim_prefixes("abc", ""), "abc");
}

#[test]
fn health_and_version_commands() {
    let h = Health::new().command();
    assert_eq!(h.method, Method::Health);
    assert!(h.params.is_empty());
    let v = Version::new().command();
    assert_eq!(v.method, Method::Version);
}

#[test]
fn client_recv_shapes() {
    let c = Client::new(Method::Select);
    assert!(matches!(c.recv(Ok(DbResponse::Other(Value::Number(1)))), Ok(Value::Number(1))));
    assert!(matches!(c.recv(Ok(DbResponse::Query(vec![]))), Err(RouterError::UnexpectedResponse)));
    assert!(matches!(c.recv(Err(RouterError::ConnectionClosed)), Err(RouterError::ConnectionClosed)));
    assert!(matches!(c.recv_query(Ok(DbResponse::Other(Value::Null))), Err(RouterError::UnexpectedResponse)));
}

#[test]
fn create_then_select_same_record_is_single() {
    let mut r = router();
    let rec = || Value::Thing("person".to_string(), Id::Text("tobie".to_string()));
    let data = Value::Object(vec![("name".to_string(), s("Tobie"))]);
    let created = match r.plan(Method::Create, vec![rec(), data]).unwrap() {
        Step::Execute(req, pending) => {
            assert!(matches!(&req.bindings[0].1, Value::Array(v) if matches!(&v[..], [Value::Thing(t, Id::Text(k))] if t == "person" && k == "tobie")));
            let row = Value::Object(vec![("name".to_string(), s("Tobie"))]);
            r.complete(pending, vec![Ok(Value::Array(vec![row]))]).unwrap()
        }
        other => panic!("unexpected {:?}", other),
    };
    assert!(matches!(created, DbResponse::Other(Value::Object(f)) if f.len() == 1 && f[0].0 == "name"));
    match r.plan(Method::Select, vec![rec()]).unwrap() {
        Step::Execute(req, Pending::Take(one)) => {
            assert!(one);
            assert!(matches!(&req.bindings[0].1, Value::Array(v) if matches!(&v[..], [Value::Thing(t, Id::Text(k))] if t == "person" && k == "tobie")));
        }
        other => panic!("unexpected {:?}", other),
    }
}

#[test]
fn bound_vars_overlay_call_on_session() {
    let mut r = router();
    set(&mut r, "x", Value::Number(1)).unwrap();
    set(&mut r, "y", Value::Number(2)).unwrap();
    let params = vec![
        s("RETURN $x + $z"),
        Value::Object(vec![("z".to_string(), Value::Number(5)), ("x".to_string(), Value::Number(9))]),
    ];
    match r.plan(Method::Query, params).unwrap() {
        Step::Execute(req, Pending::Batch) => {
            let vars = r.bound_vars(&req);
            let names: Vec<&str> = vars.iter().map(|(k, _)| k.as_str()).collect();
            assert_eq!(names, vec!["x", "y", "z"]);
            assert!(matches!(vars[0].1, Value::Number(9)));
            assert!(matches!(vars[1].1, Value::Number(2)));
            assert!(matches!(vars[2].1, Value::Number(5)));
        }
        other => panic!("unexpected {:?}", other),
    }
    // a request that does not see the session gets its own bindings only
    match r.plan(Method::Select, vec![Value::Table("t".to_string())]).unwrap() {
        Step::Execute(req, _) => {
            let vars = r.bound_vars(&req);
            assert_eq!(vars.len(), 1);
            assert_eq!(vars[0].0, "what");
        }
        other => panic!("unexpected {:?}", other),
    }
}

#[test]
fn version_reply_text() {
    assert_eq!(version_reply("1.2.3", None), "surrealdb-1.2.3");
    assert_eq!(version_reply("1.2.3", Some("  ")), "surrealdb-1.2.3");
    assert_eq!(version_reply("1.2.3", Some("")), "surrealdb-1.2.3");
    assert_eq!(version_reply("1.2.3", Some("abc")), "surrealdb-1.2.3+abc");
    let v = version_from_reply(Value::Strand(version_reply("1.2.3", Some("abc")))).unwrap();
    assert_eq!((v.major, v.minor, v.patch), (1, 2, 3));
    assert_eq!(v.build, "abc");
}
