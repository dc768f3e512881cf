use gxi::json::Json;

fn obj(members: Vec<(&str, Json)>) -> Json {
    Json::Object(members.into_iter().map(|(k, v)| (k.to_string(), v)).collect())
}

#[test]
fn get_reads_members_by_name() {
    let v = obj(vec![("view_id", Json::Str("view-id-1".to_string())), ("line", Json::UInt(7))]);
    assert_eq!(v.get_str("view_id"), Some("view-id-1".to_string()));
    assert_eq!(v.get_u64("line"), Some(7));
    assert!(v.get("col").is_none());
    assert_eq!(v.get_u64("view_id"), None);
}

#[test]
fn first_member_of_a_name_wins() {
    let v = obj(vec![("a", Json::UInt(1)), ("a", Json::UInt(2))]);
    assert_eq!(v.get_u64("a"), Some(1));
}

#[test]
fn non_objects_have_no_members() {
    assert!(Json::Null.get("x").is_none());
    assert!(Json::Array(vec![Json::UInt(1)]).get("x").is_none());
    assert_eq!(Json::Str("x".to_string()).get_str("x"), None);
}

#[test]
fn accessors_match_the_kind() {
    assert_eq!(Json::Bool(true).as_bool(), Some(true));
    assert_eq!(Json::UInt(3).as_bool(), None);
    assert_eq!(Json::UInt(3).as_u64(), Some(3));
    assert_eq!(Json::OtherNumber.as_u64(), None);
    assert_eq!(Json::Str("s".to_string()).as_str().map(|s| s.as_str()), Some("s"));
    assert!(Json::Array(vec![]).as_array().is_some());
    assert!(Json::Array(vec![]).as_object().is_none());
    let v = obj(vec![("pristine", Json::Bool(false))]);
    assert_eq!(v.get_bool("pristine"), Some(false));
}

#[test]
fn single_member_reads_back() {
    let v = Json::single_member("theme_name", Json::Str("InspiredGitHub".to_string()));
    assert_eq!(v.get_str("theme_name"), Some("InspiredGitHub".to_string()));
    assert_eq!(v.as_object().map(|m| m.len()), Some(1));
}

#[test]
fn negative_integers_are_not_u64() {
    let v = obj(vec![("start", Json::Int(-3))]);
    assert_eq!(v.get_u64("start"), None);
    assert!(matches!(v.get("start"), Some(Json::Int(-3))));
}
