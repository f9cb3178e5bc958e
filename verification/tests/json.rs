use launchdarkly::{Json, Number};

fn number(n: u64) -> Json {
    Json::Number(Number::PosInt(n))
}

fn text(s: &str) -> Json {
    Json::String(String::from(s))
}

fn object(members: Vec<(&str, Json)>) -> Json {
    Json::Object(members.into_iter().map(|(name, value)| (String::from(name), value)).collect())
}

#[test]
fn get_finds_a_member_by_name() {
    let json = object(vec![("a", number(1)), ("b", Json::Null)]);
    assert_eq!(json.get("a"), Some(&number(1)));
    assert_eq!(json.get("b"), Some(&Json::Null));
    assert_eq!(json.get("c"), None);
    assert_eq!(json.get(""), None);
}

#[test]
fn get_takes_the_first_of_equal_names() {
    let json = object(vec![("a", Json::Bool(true)), ("a", Json::Bool(false))]);
    assert_eq!(json.get("a"), Some(&Json::Bool(true)));
}

#[test]
fn get_finds_nothing_in_what_is_no_object() {
    assert_eq!(Json::Null.get("a"), None);
    assert_eq!(Json::Array(vec![text("a")]).get("a"), None);
    assert_eq!(text("a").get("a"), None);
}

#[test]
fn repeats_tells_a_name_that_is_there_more_than_once() {
    let json =
        object(vec![("a", number(1)), ("b", number(2)), ("a", number(3)), ("c", Json::Null)]);
    assert!(json.repeats("a"));
    assert!(!json.repeats("b"));
    assert!(!json.repeats("c"));
    assert!(!json.repeats("d"));
    let thrice = object(vec![("a", number(1)), ("a", number(1)), ("a", number(1))]);
    assert!(thrice.repeats("a"));
    assert!(!object(vec![]).repeats("a"));
    assert!(!Json::Array(vec![text("a"), text("a")]).repeats("a"));
    assert!(!Json::Null.repeats("a"));
}

#[test]
fn items_and_members_tell_arrays_and_objects_apart() {
    let array = Json::Array(vec![number(1), number(2)]);
    let object = object(vec![("a", number(1))]);
    assert_eq!(array.items().map(|items| items.len()), Some(2));
    assert!(array.members().is_none());
    assert!(!array.is_object());
    assert_eq!(object.members().map(|members| members.len()), Some(1));
    assert!(object.items().is_none());
    assert!(object.is_object());
    assert!(Json::Null.items().is_none());
    assert!(Json::Null.members().is_none());
}

fn sample() -> Json {
    object(vec![
        (
            "a",
            Json::Array(vec![
                number(1),
                Json::Number(Number::NegInt(-2)),
                Json::Number(Number::Float(String::from("3.5"))),
                text("x"),
                Json::Null,
                Json::Bool(true),
            ]),
        ),
        ("b", object(vec![("c", object(vec![]))])),
        ("a", number(7)),
    ])
}

#[test]
fn a_duplicate_is_equal_to_its_source() {
    assert_eq!(sample().duplicate(), sample());
}

#[test]
fn a_clone_is_equal_to_its_source() {
    let json = sample();
    assert_eq!(json.clone(), json);
}
