use neon_cli::json::{find_key, get_key_exec, set_key_exec, str_at_exec, take_key, Json};

fn obj(entries: Vec<(&str, Json)>) -> Json {
    Json::Object(entries.into_iter().map(|(k, v)| (k.to_string(), v)).collect())
}

#[test]
fn keyed_assignment_replaces_in_place_or_appends() {
    let mut j = obj(vec![("a", Json::Bool(true)), ("b", Json::Null)]);
    set_key_exec(&mut j, "a", Json::Bool(false));
    set_key_exec(&mut j, "c", Json::Str("x".to_string()));
    match &j {
        Json::Object(es) => {
            let keys: Vec<&str> = es.iter().map(|(k, _)| k.as_str()).collect();
            assert_eq!(keys, vec!["a", "b", "c"]);
            assert!(matches!(es[0].1, Json::Bool(false)));
            assert_eq!(find_key(es, "c"), 2);
            assert_eq!(find_key(es, "zz"), 3);
        }
        _ => panic!("object expected"),
    }
    let mut n = Json::Null;
    set_key_exec(&mut n, "k", Json::Bool(true));
    assert!(matches!(get_key_exec(&n, "k"), Some(Json::Bool(true))));
}

#[test]
fn lookups_and_take() {
    let mut j = obj(vec![("name", Json::Str("Beta".to_string())), ("n", Json::Number("3".to_string()))]);
    assert_eq!(str_at_exec(&j, "name").map(|s| s.as_str()), Some("Beta"));
    assert!(str_at_exec(&j, "n").is_none());
    assert!(get_key_exec(&Json::Bool(true), "name").is_none());
    let taken = take_key(&mut j, "n");
    assert!(matches!(taken, Some(Json::Number(ref t)) if t == "3"));
    assert!(matches!(get_key_exec(&j, "n"), Some(Json::Null)));
    assert!(take_key(&mut j, "missing").is_none());
}
