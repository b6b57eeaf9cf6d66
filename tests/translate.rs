use surreal_router::error::RouterError;
use surreal_router::method::Method;
use surreal_router::translate::{
    check_var_name, create_statement, delete_statement, kill_statement, live_statement,
    merge_statement, patch_statement, query_statement, select_statement, set_statement,
    split_params, unset_name, update_statement, use_params,
};
use surreal_router::value::{Id, Value};

fn thing(t: &str, n: i64) -> Value {
    Value::Thing(t.to_string(), Id::Number(n))
}

fn obj() -> Value {
    Value::Object(vec![("name".to_string(), Value::Strand("Tobie".to_string()))])
}

#[test]
fn split_params_classifies_target() {
    let (one, list, data) = split_params(vec![thing("person", 1)], Method::Select).unwrap();
    assert!(one);
    assert!(matches!(list, Value::Array(v) if v.len() == 1));
    assert!(matches!(data, Value::NoValue));
    let (one, list, _) = split_params(vec![Value::Table("person".to_string())], Method::Select).unwrap();
    assert!(!one);
    assert!(matches!(list, Value::Array(v) if matches!(v[..], [Value::Table(_)])));
    let (one, list, _) =
        split_params(vec![Value::Array(vec![thing("a", 1), thing("b", 2)])], Method::Select).unwrap();
    assert!(!one);
    assert!(matches!(list, Value::Array(v) if v.len() == 2));
}

#[test]
fn split_params_rejects_bad_arity() {
    assert!(matches!(split_params(vec![], Method::Create), Err(RouterError::InvalidParams(Method::Create))));
    let three = vec![Value::Null, Value::Null, Value::Null];
    assert!(matches!(split_params(three, Method::Update), Err(RouterError::InvalidParams(Method::Update))));
}

#[test]
fn create_with_and_without_content() {
    let r = create_statement(vec![Value::Table("person".to_string()), obj()]).unwrap();
    assert_eq!(r.text, "CREATE $what CONTENT $data RETURN AFTER");
    assert!(r.one);
    assert_eq!(r.bindings.len(), 2);
    assert_eq!(r.bindings[0].0, "what");
    assert_eq!(r.bindings[1].0, "data");
    let r = create_statement(vec![thing("person", 1)]).unwrap();
    assert_eq!(r.text, "CREATE $what RETURN AFTER");
    assert_eq!(r.bindings.len(), 1);
}

#[test]
fn update_patch_merge_texts() {
    let r = update_statement(vec![thing("person", 1), obj()]).unwrap();
    assert_eq!(r.text, "UPDATE $what CONTENT $data RETURN AFTER");
    assert!(r.one);
    let r = patch_statement(vec![Value::Table("person".to_string()), Value::Array(vec![])]).unwrap();
    assert_eq!(r.text, "UPDATE $what PATCH $data RETURN DIFF");
    assert!(!r.one);
    let r = merge_statement(vec![thing("person", 1), obj()]).unwrap();
    assert_eq!(r.text, "UPDATE $what MERGE $data RETURN AFTER");
    let r = merge_statement(vec![thing("person", 1), Value::NoValue]).unwrap();
    assert_eq!(r.text, "UPDATE $what RETURN AFTER");
    assert_eq!(r.bindings.len(), 1);
}

#[test]
fn select_and_delete_take_target_alone() {
    let r = select_statement(vec![Value::Table("person".to_string())]).unwrap();
    assert_eq!(r.text, "SELECT * FROM $what");
    assert!(!r.one);
    let r = select_statement(vec![thing("p", 1), obj()]).unwrap();
    assert_eq!(r.text, "SELECT * FROM $what");
    assert!(r.one);
    assert_eq!(r.bindings.len(), 1);
    let r = delete_statement(vec![Value::Table("p".to_string()), obj()]).unwrap();
    assert_eq!(r.text, "DELETE $what RETURN NONE");
    assert_eq!(r.bindings.len(), 1);
    assert_eq!(r.bindings[0].0, "what");
    let r = delete_statement(vec![thing("person", 1)]).unwrap();
    assert_eq!(r.text, "DELETE $what RETURN NONE");
    assert!(r.one);
    assert!(matches!(delete_statement(vec![]), Err(RouterError::InvalidParams(Method::Delete))));
}

#[test]
fn query_with_bindings() {
    let r = query_statement(vec![Value::Strand("RETURN $x".to_string())]).unwrap();
    assert_eq!(r.text, "RETURN $x");
    assert!(r.with_session);
    assert!(!r.one);
    assert!(r.bindings.is_empty());
    let r = query_statement(vec![Value::Strand("RETURN $name".to_string()), obj()]).unwrap();
    assert_eq!(r.bindings.len(), 1);
    assert!(matches!(
        query_statement(vec![Value::Number(1)]),
        Err(RouterError::InvalidParams(Method::Query))
    ));
    assert!(matches!(
        query_statement(vec![Value::Strand("x".to_string()), Value::Number(1)]),
        Err(RouterError::InvalidParams(Method::Query))
    ));
}

#[test]
fn set_builds_return_check() {
    let (name, value, req) =
        set_statement(vec![Value::Strand("x".to_string()), Value::Number(42)]).unwrap();
    assert_eq!(name, "x");
    assert!(matches!(value, Value::Number(42)));
    assert_eq!(req.text, "RETURN $x");
    assert!(req.one);
    assert!(matches!(
        set_statement(vec![Value::Strand("a b".to_string()), Value::Number(1)]),
        Err(RouterError::InvalidParams(Method::SetVar))
    ));
    assert!(matches!(
        set_statement(vec![Value::Strand("x".to_string())]),
        Err(RouterError::InvalidParams(Method::SetVar))
    ));
}

#[test]
fn var_names() {
    assert!(check_var_name("x"));
    assert!(check_var_name("user_id2"));
    assert!(!check_var_name(""));
    assert!(!check_var_name("a-b"));
    assert!(!check_var_name("$x"));
}

#[test]
fn unset_live_kill_use() {
    assert_eq!(unset_name(vec![Value::Strand("x".to_string())]).unwrap(), "x");
    assert!(unset_name(vec![Value::Number(1)]).is_err());
    let r = live_statement(vec![Value::Strand("person".to_string())]).unwrap();
    assert_eq!(r.text, "LIVE SELECT * FROM type::table($table)");
    assert_eq!(r.bindings[0].0, "table");
    let r = kill_statement(vec![Value::Strand("abc".to_string())]).unwrap();
    assert_eq!(r.text, "KILL type::string($id)");
    assert_eq!(r.bindings[0].0, "id");
    let (ns, db) = use_params(vec![Value::Strand("ns".to_string()), Value::Strand("db".to_string())]).unwrap();
    assert_eq!((ns.as_str(), db.as_str()), ("ns", "db"));
    assert!(matches!(use_params(vec![Value::Strand("ns".to_string())]), Err(RouterError::InvalidParams(Method::Use))));
}

#[test]
fn method_names() {
    assert_eq!(Method::Health.as_str(), "health");
    assert_eq!(Method::SetVar.as_str(), "set");
    assert_eq!(Method::Authenticate.as_str(), "authenticate");
}
