use zk_agent::json::Json;

fn num(s: &str) -> Json {
    Json::Number(s.to_string())
}

fn obj(entries: Vec<(&str, Json)>) -> Json {
    Json::Object(entries.into_iter().map(|(k, v)| (k.to_string(), v)).collect())
}

#[test]
fn integers_read_as_i64() {
    assert_eq!(num("0").as_i64(), Some(0));
    assert_eq!(num("42").as_i64(), Some(42));
    assert_eq!(num("-7").as_i64(), Some(-7));
    assert_eq!(num("9223372036854775807").as_i64(), Some(i64::MAX));
    assert_eq!(num("-9223372036854775808").as_i64(), Some(i64::MIN));
    assert_eq!(num("9223372036854775808").as_i64(), None);
    assert_eq!(num("-9223372036854775809").as_i64(), None);
}

#[test]
fn fractions_and_exponents_are_no_integers() {
    assert_eq!(num("1.5").as_i64(), None);
    assert_eq!(num("2.0").as_u64(), None);
    assert_eq!(num("1e3").as_i64(), None);
    assert_eq!(num("-").as_i64(), None);
    assert_eq!(num("").as_u64(), None);
}

#[test]
fn integers_read_as_u64() {
    assert_eq!(num("18446744073709551615").as_u64(), Some(u64::MAX));
    assert_eq!(num("18446744073709551616").as_u64(), None);
    assert_eq!(num("99999999999999999999999").as_u64(), None);
    assert_eq!(num("-1").as_u64(), None);
    assert_eq!(num("8200").as_u64(), Some(8200));
}

#[test]
fn non_numbers_have_no_integer() {
    assert_eq!(Json::Text("5".into()).as_i64(), None);
    assert_eq!(Json::Bool(true).as_u64(), None);
    assert_eq!(Json::Null.as_i64(), None);
}

#[test]
fn get_finds_the_first_entry_of_a_name() {
    let o = obj(vec![("a", num("1")), ("b", num("2")), ("a", num("3"))]);
    assert_eq!(o.get("a"), Some(&num("1")));
    assert_eq!(o.get("b"), Some(&num("2")));
    assert_eq!(o.get("c"), None);
    assert_eq!(num("1").get("a"), None);
}

#[test]
fn accessors_by_kind() {
    assert_eq!(Json::Text("x".into()).as_str(), Some("x"));
    assert_eq!(num("1").as_str(), None);
    assert_eq!(Json::Bool(false).as_bool(), Some(false));
    assert_eq!(Json::Null.as_bool(), None);
    let a = Json::Array(vec![Json::Null]);
    assert_eq!(a.as_array(), Some(&vec![Json::Null]));
    assert_eq!(Json::Null.as_array(), None);
}

#[test]
fn deep_clone_is_equal() {
    let v = obj(vec![
        ("list", Json::Array(vec![num("1"), Json::Text("two".into()), Json::Null])),
        ("nested", obj(vec![("flag", Json::Bool(true))])),
    ]);
    assert_eq!(v.deep_clone(), v);
}
