use launchdarkly::{
    ApiError, Client, CodecError, ErrorKind, FeatureFlag, FeatureFlagConfig, FeatureFlags,
    FlagEnvironments, FromJson, Json, Link, Links, Member, Number, Problem, Project, Projects,
    Reply, Rule, SchemaError, Step, Variation,
};
use serde::de::{Deserialize, Deserializer, MapAccess, SeqAccess, Visitor};
use std::fmt;

/// Reads the document that `bytes` hold, keeping every member of an object
/// in the order of the text and as often as the text spells its name.
fn read(bytes: &[u8]) -> Result<Json, serde_json::Error> {
    serde_json::from_slice::<Document>(bytes).map(|document| document.0)
}

struct Document(Json);

impl<'de> Deserialize<'de> for Document {
    fn deserialize<D>(deserializer: D) -> Result<Self, D::Error>
    where
        D: Deserializer<'de>,
    {
        deserializer.deserialize_any(DocumentVisitor).map(Document)
    }
}

struct DocumentVisitor;

impl<'de> Visitor<'de> for DocumentVisitor {
    type Value = Json;

    fn expecting(&self, formatter: &mut fmt::Formatter) -> fmt::Result {
        formatter.write_str("any JSON value")
    }

    fn visit_unit<E>(self) -> Result<Json, E> {
        Ok(Json::Null)
    }

    fn visit_bool<E>(self, value: bool) -> Result<Json, E> {
        Ok(Json::Bool(value))
    }

    fn visit_u64<E>(self, value: u64) -> Result<Json, E> {
        Ok(Json::Number(Number::PosInt(value)))
    }

    fn visit_i64<E>(self, value: i64) -> Result<Json, E> {
        Ok(Json::Number(match u64::try_from(value) {
            Ok(value) => Number::PosInt(value),
            Err(_) => Number::NegInt(value),
        }))
    }

    fn visit_f64<E>(self, value: f64) -> Result<Json, E> {
        let text = match serde_json::Number::from_f64(value) {
            Some(number) => number.to_string(),
            None => value.to_string(),
        };
        Ok(Json::Number(Number::Float(text)))
    }

    fn visit_str<E>(self, value: &str) -> Result<Json, E> {
        Ok(Json::String(value.to_owned()))
    }

    fn visit_string<E>(self, value: String) -> Result<Json, E> {
        Ok(Json::String(value))
    }

    fn visit_seq<A>(self, mut seq: A) -> Result<Json, A::Error>
    where
        A: SeqAccess<'de>,
    {
        let mut items = Vec::new();
        while let Some(Document(item)) = seq.next_element()? {
            items.push(item);
        }
        Ok(Json::Array(items))
    }

    fn visit_map<A>(self, mut map: A) -> Result<Json, A::Error>
    where
        A: MapAccess<'de>,
    {
        let mut members = Vec::new();
        while let Some((name, Document(value))) = map.next_entry::<String, Document>()? {
            members.push((name, value));
        }
        Ok(Json::Object(members))
    }
}

fn parse(text: &str) -> Json {
    read(text.as_bytes()).unwrap()
}

fn receive<T: FromJson>(body: &str) -> Result<T, ApiError> {
    Client::receive(Reply::Response { status: 200, body: read(body.as_bytes()) })
}

const LINKS: &str = r#"{"self":{"href":"/x","type":"application/json"}}"#;

fn config(version: usize) -> String {
    format!(
        r#"{{"on":true,"archived":false,"salt":"c2FsdA","sel":"abc","lastModified":1500000000000,
            "version":{},"targets":[{{"values":["user-1","user-2"],"variation":0}}],
            "rules":[{{"variation":1,"clause":[{{"attribute":"country","op":"in",
                      "values":["de","fr"],"negate":false}}]}},
                     {{"rollout":{{"variations":[{{"variation":0,"weight":60000}},
                                                {{"variation":1,"weight":40000}}]}}}},
                     {{}}],
            "fallthrough":{{"variation":0}}}}"#,
        version
    )
}

fn flag(environments: &str) -> String {
    format!(
        r#"{{"key":"new-ui","name":"New UI","kind":"boolean","creationDate":1490000000000,
            "includeInSnippet":true,"temporary":false,"maintainerId":"m-1",
            "tags":["ui","beta"],
            "variations":[{{"value":true,"name":"on","description":"shown"}},{{"value":false}}],
            "_links":{},
            "_maintainer":{{"_links":{},"_id":"m-1","firstName":"Ada","role":"admin",
                           "email":"ada@example.com","_pendingInvite":false,
                           "customRoles":["ops"]}},
            "environments":{}}}"#,
        LINKS, LINKS, environments
    )
}

#[test]
fn projects_are_decoded_field_by_field() {
    let body = format!(
        r#"{{"_links":{},"items":[
            {{"_links":{},"key":"default","name":"Default","includeInSnippetByDefault":true,
              "environments":[
                {{"_id":"e-1","_pubnub":{{"channel":"ch","cipherKey":"ck"}},"key":"production",
                  "name":"Production","apiKey":"sdk-1","mobileKey":"mob-1","color":"417505",
                  "defaultTtl":5,"secureMode":false}},
                {{"_id":"e-2","_pubnub":{{"channel":"ch2","cipherKey":"ck2"}},"key":"test",
                  "name":"Test","apiKey":"sdk-2","mobileKey":"mob-2","color":"F5A623",
                  "defaultTtl":0,"secureMode":true}}]}},
            {{"_links":{},"key":"other","name":"Other","includeInSnippetByDefault":false,
              "environments":[]}}]}}"#,
        LINKS, LINKS, LINKS
    );
    let projects: Projects = receive(&body).unwrap();
    assert_eq!(projects._links._self.href, "/x");
    assert_eq!(projects._links._self.link_type, "application/json");
    assert_eq!(projects.items.len(), 2);
    let first = &projects.items[0];
    assert_eq!(first.key, "default");
    assert_eq!(first.name, "Default");
    assert!(first.include_in_snippet_by_default);
    assert_eq!(first.environments.len(), 2);
    let production = &first.environments[0];
    assert_eq!(production._id, "e-1");
    assert_eq!(production._pubnub.channel, "ch");
    assert_eq!(production._pubnub.cipher_key, "ck");
    assert_eq!(production.key, "production");
    assert_eq!(production.name, "Production");
    assert_eq!(production.api_key, "sdk-1");
    assert_eq!(production.mobile_key, "mob-1");
    assert_eq!(production.color, "417505");
    assert_eq!(production.default_ttl, 5);
    assert!(!production.secure_mode);
    let test = &first.environments[1];
    assert_eq!(test._id, "e-2");
    assert_eq!(test.key, "test");
    assert_eq!(test.default_ttl, 0);
    assert!(test.secure_mode);
    let second = &projects.items[1];
    assert_eq!(second.key, "other");
    assert!(!second.include_in_snippet_by_default);
    assert!(second.environments.is_empty());
}

#[test]
fn members_in_another_order_and_unknown_members_do_not_matter() {
    let json = parse(r#"{"type":"text/html","extra":[1,2],"href":"/y"}"#);
    let link = Link::from_json(&json).unwrap();
    assert_eq!(link.href, "/y");
    assert_eq!(link.link_type, "text/html");
}

#[test]
fn a_missing_required_member_is_refused() {
    assert!(Link::from_json(&parse(r#"{"href":"/y"}"#)).is_err());
    assert!(Link::from_json(&parse(r#"{"type":"t"}"#)).is_err());
    assert!(Links::from_json(&parse(r#"{}"#)).is_err());
    let body = format!(r#"{{"_links":{}}}"#, LINKS);
    assert!(matches!(
        receive::<Projects>(&body),
        Err(ApiError(ErrorKind::Codec(CodecError::Schema(_))))
    ));
}

#[test]
fn a_member_of_the_wrong_type_is_refused() {
    assert!(Link::from_json(&parse(r#"{"href":1,"type":"t"}"#)).is_err());
    assert!(Link::from_json(&parse(r#"{"href":null,"type":"t"}"#)).is_err());
    assert!(Link::from_json(&parse(r#"{"href":"/y","type":["t"]}"#)).is_err());
    let body = format!(r#"{{"_links":{},"items":{{}}}}"#, LINKS);
    assert!(receive::<Projects>(&body).is_err());
    let body = format!(r#"{{"_links":{},"items":[1]}}"#, LINKS);
    assert!(receive::<Projects>(&body).is_err());
}

#[test]
fn a_record_is_read_from_an_object_only() {
    assert!(Link::from_json(&parse(r#"["/y","t"]"#)).is_err());
    assert!(Rule::from_json(&parse("[]")).is_err());
    assert!(Rule::from_json(&parse("null")).is_err());
    assert!(Rule::from_json(&parse("3")).is_err());
    assert!(Rule::from_json(&parse("{}")).is_ok());
}

fn fault(path: Vec<Step>, problem: Problem) -> SchemaError {
    SchemaError { path, problem }
}

fn member(name: &str) -> Step {
    Step::Member(String::from(name))
}

#[test]
fn scalars_are_read_from_their_own_kind_only() {
    let mistyped = || fault(vec![], Problem::Mistyped);
    assert_eq!(String::from_json(&parse(r#""a""#)), Ok(String::from("a")));
    assert_eq!(String::from_json(&parse("1")), Err(mistyped()));
    assert_eq!(bool::from_json(&parse("true")), Ok(true));
    assert_eq!(bool::from_json(&parse(r#""true""#)), Err(mistyped()));
    assert_eq!(usize::from_json(&parse("7")), Ok(7));
    assert_eq!(usize::from_json(&parse("0")), Ok(0));
    assert_eq!(usize::from_json(&parse("-7")), Err(mistyped()));
    assert_eq!(usize::from_json(&parse("7.0")), Err(mistyped()));
    assert_eq!(usize::from_json(&parse(r#""7""#)), Err(mistyped()));
    assert_eq!(
        usize::from_json(&Json::Number(Number::PosInt(u64::MAX))).ok(),
        usize::try_from(u64::MAX).ok()
    );
}

#[test]
fn lists_are_read_item_by_item() {
    assert_eq!(
        Vec::<String>::from_json(&parse(r#"["a","b"]"#)),
        Ok(vec![String::from("a"), String::from("b")])
    );
    assert_eq!(Vec::<String>::from_json(&parse("[]")), Ok(vec![]));
    assert_eq!(
        Vec::<String>::from_json(&parse(r#"["a",1,2]"#)),
        Err(fault(vec![Step::Item(1)], Problem::Mistyped))
    );
    assert_eq!(
        Vec::<String>::from_json(&parse(r#"{"0":"a"}"#)),
        Err(fault(vec![], Problem::Mistyped))
    );
    assert_eq!(Vec::<usize>::from_json(&parse("[3,2,1]")), Ok(vec![3, 2, 1]));
}

#[test]
fn any_value_is_read_as_itself() {
    let json = parse(r#"{"a":[1,2.5,null]}"#);
    assert_eq!(Json::from_json(&json), Ok(json.duplicate()));
}

#[test]
fn a_fault_names_the_missing_member() {
    assert_eq!(
        Link::from_json(&parse(r#"{"href":"/y"}"#)).unwrap_err(),
        fault(vec![member("type")], Problem::Missing)
    );
    assert_eq!(
        Link::from_json(&parse(r#"{}"#)).unwrap_err(),
        fault(vec![member("href")], Problem::Missing)
    );
    let body = format!(r#"{{"_links":{}}}"#, LINKS);
    match receive::<Projects>(&body) {
        Err(ApiError(ErrorKind::Codec(CodecError::Schema(e)))) => {
            assert_eq!(e, fault(vec![member("items")], Problem::Missing))
        }
        other => panic!("unexpected {:?}", other),
    }
}

#[test]
fn a_fault_names_the_mistyped_member() {
    assert_eq!(
        Link::from_json(&parse(r#"{"href":1,"type":"t"}"#)).unwrap_err(),
        fault(vec![member("href")], Problem::Mistyped)
    );
    assert_eq!(
        Link::from_json(&parse("[]")).unwrap_err(),
        fault(vec![], Problem::Mistyped)
    );
    assert_eq!(
        Rule::from_json(&parse(r#"{"variation":"0"}"#)).unwrap_err(),
        fault(vec![member("variation")], Problem::Mistyped)
    );
}

#[test]
fn a_fault_gives_the_way_to_a_value_deep_inside() {
    let body = format!(
        r#"{{"_links":{},"items":[
            {{"_links":{},"key":"a","name":"A","includeInSnippetByDefault":true,
              "environments":[]}},
            {{"_links":{},"key":"b","name":"B","includeInSnippetByDefault":true,
              "environments":[
                {{"_id":"e-1","_pubnub":{{"channel":"ch"}},"key":"production",
                  "name":"Production","apiKey":"sdk-1","mobileKey":"mob-1","color":"417505",
                  "defaultTtl":5,"secureMode":false}}]}}]}}"#,
        LINKS, LINKS, LINKS
    );
    match receive::<Projects>(&body) {
        Err(ApiError(ErrorKind::Codec(CodecError::Schema(e)))) => assert_eq!(
            e,
            fault(
                vec![
                    member("items"),
                    Step::Item(1),
                    member("environments"),
                    Step::Item(0),
                    member("_pubnub"),
                    member("cipherKey"),
                ],
                Problem::Missing
            )
        ),
        other => panic!("unexpected {:?}", other),
    }
}

#[test]
fn the_first_fault_in_the_order_of_the_record_is_reported() {
    assert_eq!(
        Link::from_json(&parse(r#"{"type":1}"#)).unwrap_err(),
        fault(vec![member("href")], Problem::Missing)
    );
    assert_eq!(
        Vec::<bool>::from_json(&parse(r#"[true,"x",3]"#)).unwrap_err(),
        fault(vec![Step::Item(1)], Problem::Mistyped)
    );
}

#[test]
fn flags_are_decoded_field_by_field() {
    let environments = format!(r#"{{"production":{},"test":{}}}"#, config(7), config(3));
    let body = format!(r#"{{"_links":{},"items":[{}]}}"#, LINKS, flag(&environments));
    let flags: FeatureFlags = receive(&body).unwrap();
    assert_eq!(flags.items.len(), 1);
    let flag = &flags.items[0];
    assert_eq!(flag.key, "new-ui");
    assert_eq!(flag.name, "New UI");
    assert_eq!(flag.kind, "boolean");
    assert_eq!(flag.creation_date, 1490000000000);
    assert!(flag.include_in_snippet);
    assert!(!flag.temporary);
    assert_eq!(flag.maintainer_id.as_deref(), Some("m-1"));
    assert_eq!(flag.tags, vec![String::from("ui"), String::from("beta")]);
    assert_eq!(flag.variations.len(), 2);
    assert_eq!(flag.variations[0].value, Json::Bool(true));
    assert_eq!(flag.variations[0].name.as_deref(), Some("on"));
    assert_eq!(flag.variations[0].description.as_deref(), Some("shown"));
    assert_eq!(flag.variations[1].value, Json::Bool(false));
    assert_eq!(flag.variations[1].name, None);
    assert_eq!(flag.variations[1].description, None);
    assert_eq!(flag._links._self.href, "/x");
    let maintainer = flag._maintainer.as_ref().unwrap();
    assert_eq!(maintainer._id, "m-1");
    assert_eq!(maintainer.first_name.as_deref(), Some("Ada"));
    assert_eq!(maintainer.last_name, None);
    assert_eq!(maintainer.role, "admin");
    assert_eq!(maintainer.email, "ada@example.com");
    assert_eq!(maintainer._pending_invite, Some(false));
    assert_eq!(maintainer.is_beta, None);
    assert_eq!(maintainer.custom_roles, Some(vec![String::from("ops")]));

    let production = flag.environments.get("production").unwrap();
    assert!(production.on);
    assert!(!production.archived);
    assert_eq!(production.salt, "c2FsdA");
    assert_eq!(production.sel, "abc");
    assert_eq!(production.last_modified, 1500000000000);
    assert_eq!(production.version, 7);
    assert_eq!(production.targets.len(), 1);
    assert_eq!(
        production.targets[0].values,
        vec![String::from("user-1"), String::from("user-2")]
    );
    assert_eq!(production.targets[0].variation, 0);
    assert_eq!(production.rules.len(), 3);
    let by_clause = &production.rules[0];
    assert_eq!(by_clause.variation, Some(1));
    assert!(by_clause.rollout.is_none());
    let clauses = by_clause.clause.as_ref().unwrap();
    assert_eq!(clauses.len(), 1);
    assert_eq!(clauses[0].attribute, "country");
    assert_eq!(clauses[0].op, "in");
    assert_eq!(clauses[0].values, vec![String::from("de"), String::from("fr")]);
    assert!(!clauses[0].negate);
    let by_rollout = &production.rules[1];
    assert_eq!(by_rollout.variation, None);
    assert!(by_rollout.clause.is_none());
    let rollout = by_rollout.rollout.as_ref().unwrap();
    assert_eq!(rollout.variations.len(), 2);
    assert_eq!(rollout.variations[0].variation, 0);
    assert_eq!(rollout.variations[0].weight, 60000);
    assert_eq!(rollout.variations[1].variation, 1);
    assert_eq!(rollout.variations[1].weight, 40000);
    let bare = &production.rules[2];
    assert!(bare.variation.is_none() && bare.rollout.is_none() && bare.clause.is_none());
    assert_eq!(production.fallthrough.variation, Some(0));
    assert!(production.fallthrough.rollout.is_none());
    assert_eq!(flag.environments.get("test").unwrap().version, 3);
}

#[test]
fn every_environment_key_is_kept() {
    let environments = format!(
        r#"{{"staging":{},"production":{},"dev":{},"Dev":{},"":{}}}"#,
        config(1),
        config(2),
        config(3),
        config(4),
        config(5)
    );
    let flag = FeatureFlag::from_json(&parse(&flag(&environments))).unwrap();
    assert_eq!(flag.environments.len(), 5);
    for (key, version) in [("staging", 1), ("production", 2), ("dev", 3), ("Dev", 4), ("", 5)] {
        assert_eq!(flag.environments.get(key).unwrap().version, version, "{:?}", key);
    }
    assert!(flag.environments.get("prod").is_none());
    let mut keys: Vec<&str> =
        flag.environments.entries().iter().map(|entry| entry.0.as_str()).collect();
    keys.sort();
    assert_eq!(keys, vec!["", "Dev", "dev", "production", "staging"]);
}

#[test]
fn environments_of_a_value_keep_its_order() {
    let one = parse(&config(1));
    let two = parse(&config(2));
    let json = Json::Object(vec![(String::from("b"), one), (String::from("a"), two)]);
    let environments = FlagEnvironments::from_json(&json).unwrap();
    let entries = environments.entries();
    assert_eq!(entries.len(), 2);
    assert_eq!(entries[0].0, "b");
    assert_eq!(entries[0].1.version, 1);
    assert_eq!(entries[1].0, "a");
    assert_eq!(entries[1].1.version, 2);
}

#[test]
fn no_environments_are_an_empty_mapping() {
    let flag = FeatureFlag::from_json(&parse(&flag("{}"))).unwrap();
    assert_eq!(flag.environments.len(), 0);
    assert!(flag.environments.get("production").is_none());
}

#[test]
fn a_repeated_environment_key_in_a_value_is_refused() {
    let json = Json::Object(vec![
        (String::from("production"), parse(&config(1))),
        (String::from("test"), parse(&config(2))),
        (String::from("production"), parse(&config(3))),
    ]);
    assert_eq!(
        FlagEnvironments::from_json(&json).unwrap_err(),
        fault(vec![member("production")], Problem::Repeated)
    );
}

#[test]
fn a_repeated_environment_key_in_a_text_is_refused() {
    let environments = format!(
        r#"{{"production":{},"test":{},"production":{}}}"#,
        config(1),
        config(2),
        config(3)
    );
    let json = parse(&environments);
    assert_eq!(json.members().unwrap().len(), 3);
    assert_eq!(
        FlagEnvironments::from_json(&json).unwrap_err(),
        fault(vec![member("production")], Problem::Repeated)
    );

    let body = format!(r#"{{"_links":{},"items":[{}]}}"#, LINKS, flag(&environments));
    match receive::<FeatureFlags>(&body) {
        Err(ApiError(ErrorKind::Codec(CodecError::Schema(e)))) => assert_eq!(
            e,
            fault(
                vec![member("items"), Step::Item(0), member("environments"), member("production")],
                Problem::Repeated
            )
        ),
        other => panic!("unexpected {:?}", other),
    }
}

#[test]
fn a_repeated_environment_key_with_equal_configs_is_refused_too() {
    let environments = format!(r#"{{"production":{},"production":{}}}"#, config(1), config(1));
    let body = format!(r#"{{"_links":{},"items":[{}]}}"#, LINKS, flag(&environments));
    assert!(matches!(
        receive::<FeatureFlags>(&body),
        Err(ApiError(ErrorKind::Codec(CodecError::Schema(_))))
    ));
}

#[test]
fn environments_of_a_text_keep_the_order_of_the_text() {
    let environments =
        format!(r#"{{"test":{},"Production":{},"dev":{}}}"#, config(1), config(2), config(3));
    let body = format!(r#"{{"_links":{},"items":[{}]}}"#, LINKS, flag(&environments));
    let flags: FeatureFlags = receive(&body).unwrap();
    let entries = flags.items[0].environments.entries();
    let keys: Vec<&str> = entries.iter().map(|entry| entry.0.as_str()).collect();
    assert_eq!(keys, vec!["test", "Production", "dev"]);
    let versions: Vec<usize> = entries.iter().map(|entry| entry.1.version).collect();
    assert_eq!(versions, vec![1, 2, 3]);
}

#[test]
fn a_repeated_member_of_a_record_is_refused() {
    assert_eq!(
        Link::from_json(&parse(r#"{"href":"/a","type":"t","href":"/b"}"#)).unwrap_err(),
        fault(vec![member("href")], Problem::Repeated)
    );
    assert_eq!(
        Link::from_json(&parse(r#"{"href":"/a","type":"t","type":"t"}"#)).unwrap_err(),
        fault(vec![member("type")], Problem::Repeated)
    );
    let body = format!(r#"{{"_links":{},"items":[],"items":[]}}"#, LINKS);
    match receive::<Projects>(&body) {
        Err(ApiError(ErrorKind::Codec(CodecError::Schema(e)))) => {
            assert_eq!(e, fault(vec![member("items")], Problem::Repeated))
        }
        other => panic!("unexpected {:?}", other),
    }
}

#[test]
fn a_repeated_optional_member_is_refused() {
    assert_eq!(
        Rule::from_json(&parse(r#"{"variation":1,"variation":1}"#)).unwrap_err(),
        fault(vec![member("variation")], Problem::Repeated)
    );
    assert_eq!(
        Rule::from_json(&parse(r#"{"rollout":null,"rollout":null}"#)).unwrap_err(),
        fault(vec![member("rollout")], Problem::Repeated)
    );
}

#[test]
fn a_repeated_member_that_no_record_reads_does_not_matter() {
    let link = Link::from_json(&parse(r#"{"x":1,"href":"/a","x":2,"type":"t"}"#)).unwrap();
    assert_eq!(link.href, "/a");
    assert_eq!(link.link_type, "t");
}

#[test]
fn environments_of_the_wrong_shape_are_refused() {
    assert!(FlagEnvironments::from_json(&parse("[]")).is_err());
    assert!(FlagEnvironments::from_json(&parse(r#"{"production":{}}"#)).is_err());
    assert!(FlagEnvironments::from_json(&parse(r#"{"production":null}"#)).is_err());
    assert!(FeatureFlag::from_json(&parse(&flag("[]"))).is_err());
}

#[test]
fn absent_and_null_optional_members_are_not_present() {
    let body = format!(
        r#"{{"_links":{},"_id":"m-2","role":"reader","email":"b@example.com",
            "lastName":null,"isBeta":null}}"#,
        LINKS
    );
    let member = Member::from_json(&parse(&body)).unwrap();
    assert_eq!(member._id, "m-2");
    assert_eq!(member.first_name, None);
    assert_eq!(member.last_name, None);
    assert_eq!(member._pending_invite, None);
    assert_eq!(member.is_beta, None);
    assert_eq!(member.custom_roles, None);
}

#[test]
fn present_optional_members_are_read() {
    let body = format!(
        r#"{{"_links":{},"_id":"m-3","role":"writer","email":"c@example.com",
            "firstName":"","lastName":"Lovelace","_pendingInvite":true,"isBeta":false,
            "customRoles":[]}}"#,
        LINKS
    );
    let member = Member::from_json(&parse(&body)).unwrap();
    assert_eq!(member.first_name.as_deref(), Some(""));
    assert_eq!(member.last_name.as_deref(), Some("Lovelace"));
    assert_eq!(member._pending_invite, Some(true));
    assert_eq!(member.is_beta, Some(false));
    assert_eq!(member.custom_roles, Some(vec![]));
}

#[test]
fn an_optional_member_of_the_wrong_type_is_refused() {
    let body = format!(
        r#"{{"_links":{},"_id":"m-4","role":"r","email":"e","firstName":5}}"#,
        LINKS
    );
    assert!(Member::from_json(&parse(&body)).is_err());
    assert!(Rule::from_json(&parse(r#"{"variation":"0"}"#)).is_err());
    assert!(Rule::from_json(&parse(r#"{"clause":{}}"#)).is_err());
}

#[test]
fn a_variation_keeps_any_value() {
    let json = parse(r#"{"value":{"color":"red","sizes":[1,2.5,-3],"on":null}}"#);
    let variation = Variation::from_json(&json).unwrap();
    assert_eq!(variation.value, parse(r#"{"color":"red","sizes":[1,2.5,-3],"on":null}"#));
    let variation = Variation::from_json(&parse(r#"{"value":null}"#)).unwrap();
    assert_eq!(variation.value, Json::Null);
    assert!(Variation::from_json(&parse(r#"{"name":"x"}"#)).is_err());
}

#[test]
fn a_flag_without_maintainer_is_decoded() {
    let text = format!(
        r#"{{"key":"k","name":"n","kind":"multivariate","creationDate":0,
            "includeInSnippet":false,"temporary":true,"tags":[],"variations":[],
            "_links":{},"environments":{{}}}}"#,
        LINKS
    );
    let flag = FeatureFlag::from_json(&parse(&text)).unwrap();
    assert_eq!(flag.kind, "multivariate");
    assert_eq!(flag.maintainer_id, None);
    assert!(flag._maintainer.is_none());
    assert!(flag.temporary);
}

#[test]
fn a_config_needs_all_its_members() {
    assert!(FeatureFlagConfig::from_json(&parse(&config(1))).is_ok());
    let without_fallthrough = config(1).replace(r#""fallthrough":{"variation":0}"#, r#""x":1"#);
    assert!(FeatureFlagConfig::from_json(&parse(&without_fallthrough)).is_err());
}

#[test]
fn a_project_needs_its_environments() {
    let text = format!(
        r#"{{"_links":{},"key":"k","name":"n","includeInSnippetByDefault":true}}"#,
        LINKS
    );
    assert!(Project::from_json(&parse(&text)).is_err());
}

#[test]
fn scalars_are_read() {
    assert_eq!(parse("null"), Json::Null);
    assert_eq!(parse("true"), Json::Bool(true));
    assert_eq!(parse("false"), Json::Bool(false));
    assert_eq!(parse(r#""text""#), Json::String(String::from("text")));
    assert_eq!(parse(r#""a\"b\u00e9""#), Json::String(String::from("a\"b\u{e9}")));
}

#[test]
fn numbers_keep_their_form() {
    assert_eq!(parse("0"), Json::Number(Number::PosInt(0)));
    assert_eq!(parse("42"), Json::Number(Number::PosInt(42)));
    assert_eq!(parse("18446744073709551615"), Json::Number(Number::PosInt(u64::MAX)));
    assert_eq!(parse("-1"), Json::Number(Number::NegInt(-1)));
    assert_eq!(parse("-9223372036854775808"), Json::Number(Number::NegInt(i64::MIN)));
    assert_eq!(parse("1.5"), Json::Number(Number::Float(String::from("1.5"))));
    assert_eq!(parse("-0.25"), Json::Number(Number::Float(String::from("-0.25"))));
}

#[test]
fn arrays_and_objects_are_read() {
    assert_eq!(parse("[]"), Json::Array(vec![]));
    assert_eq!(
        parse(r#"[1, "two", [null]]"#),
        Json::Array(vec![
            Json::Number(Number::PosInt(1)),
            Json::String(String::from("two")),
            Json::Array(vec![Json::Null]),
        ])
    );
    assert_eq!(parse("{}"), Json::Object(vec![]));
    assert_eq!(
        parse(r#"{"c": [], "a": {"b": true}}"#),
        Json::Object(vec![
            (String::from("c"), Json::Array(vec![])),
            (String::from("a"), Json::Object(vec![(String::from("b"), Json::Bool(true))])),
        ])
    );
}

#[test]
fn members_of_a_text_are_all_kept_in_their_order() {
    let json = parse(r#"{"b": 1, "a": 2, "b": 3, "B": 4}"#);
    assert_eq!(
        json,
        Json::Object(vec![
            (String::from("b"), Json::Number(Number::PosInt(1))),
            (String::from("a"), Json::Number(Number::PosInt(2))),
            (String::from("b"), Json::Number(Number::PosInt(3))),
            (String::from("B"), Json::Number(Number::PosInt(4))),
        ])
    );
    assert!(json.repeats("b"));
    assert!(!json.repeats("a"));
    assert!(!json.repeats("B"));
    assert!(!json.repeats("c"));
    let inner = parse(r#"[{"x": {"k": 1, "k": 2}}]"#);
    let x = inner.items().unwrap()[0].get("x").unwrap();
    assert_eq!(x.members().unwrap().len(), 2);
    assert!(x.repeats("k"));
}

#[test]
fn whitespace_around_a_document_is_ignored() {
    assert_eq!(parse(" \n\t{ \"a\" : 1 }\r\n"), parse(r#"{"a":1}"#));
}

#[test]
fn what_is_no_document_is_refused() {
    for text in ["", "{", "[1,]", "{\"a\":}", "nul", "1 2", "{'a':1}", "\"open"] {
        assert!(read(text.as_bytes()).is_err(), "{:?}", text);
    }
    assert!(read(&[0xff, 0xfe]).is_err());
    assert!(read(&[b'"', 0xff, b'"']).is_err());
    let deep = format!("{}{}", "[".repeat(1000), "]".repeat(1000));
    assert!(read(deep.as_bytes()).is_err());
}

#[test]
fn a_body_that_is_no_document_is_a_codec_error() {
    for body in ["{not json", "", "[1,"] {
        match receive::<Projects>(body) {
            Err(ApiError(ErrorKind::Codec(CodecError::Syntax(_)))) => {}
            other => panic!("unexpected {:?}", other),
        }
    }
}

#[test]
fn the_empty_project_list_is_received_from_its_text() {
    let body = r#"{"_links":{"self":{"href":"/projects","type":"application/json"}},"items":[]}"#;
    let projects: Projects = receive(body).unwrap();
    assert_eq!(projects.items.len(), 0);
    assert_eq!(projects._links._self.href, "/projects");
}

#[test]
fn a_refusal_is_the_generic_failure_whatever_the_text() {
    for body in [r#""Unauthorized""#, r#"{"code":"not_found"}"#, "{not json", ""] {
        let reply = Reply::Response { status: 401, body: read(body.as_bytes()) };
        match Client::receive::<Projects>(reply) {
            Err(ApiError(ErrorKind::Msg(reason))) => assert_eq!(reason, "fail"),
            other => panic!("unexpected {:?}", other),
        }
    }
}
