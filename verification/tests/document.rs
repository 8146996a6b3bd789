use locale_lookup::document::get_by_dotted_path;
use locale_lookup::{LoadError, TomlConfig};

const NESTED: &str = "title = \"Top\"\ncount = 3\n\n[a]\nname = \"A\"\n\n[a.b]\nc = \"Hello\"\n";

fn config(text: &str) -> TomlConfig {
    TomlConfig::new("lang/test.toml", Ok(text.to_string())).expect("valid document")
}

#[test]
fn dotted_path_reaches_nested_string() {
    let doc = config(NESTED);
    assert_eq!(doc.get("a.b.c").and_then(|v| v.as_str()), Some("Hello"));
}

#[test]
fn dotted_path_to_table_yields_the_table() {
    let doc = config(NESTED);
    let node = doc.get("a.b").expect("a.b is there");
    assert!(node.is_table());
    assert_eq!(node.get("c").and_then(|v| v.as_str()), Some("Hello"));
}

#[test]
fn over_deep_path_yields_absence() {
    let doc = config(NESTED);
    assert!(doc.get("a.b.c.d").is_none());
    assert!(doc.get("title.x").is_none());
    assert!(doc.get("count.x").is_none());
}

#[test]
fn single_segment_path() {
    let doc = config(NESTED);
    assert_eq!(doc.get("title").and_then(|v| v.as_str()), Some("Top"));
    assert_eq!(doc.get("count").and_then(|v| v.as_integer()), Some(3));
    assert!(doc.get("a").expect("a is there").is_table());
}

#[test]
fn missing_key_yields_absence() {
    let doc = config(NESTED);
    assert!(doc.get("nope").is_none());
    assert!(doc.get("a.nope").is_none());
    assert!(doc.get("a.b.nope").is_none());
}

#[test]
fn empty_path_names_the_empty_key() {
    let doc = config(NESTED);
    assert!(doc.get("").is_none());
    let with_empty_key = config("\"\" = \"blank\"\n");
    assert_eq!(with_empty_key.get("").and_then(|v| v.as_str()), Some("blank"));
}

#[test]
fn empty_segments_are_keys_too() {
    let doc = config(NESTED);
    assert!(doc.get("a..c").is_none());
    assert!(doc.get(".a").is_none());
    assert!(doc.get("a.").is_none());
}

#[test]
fn path_does_not_index_into_arrays() {
    let doc = config("list = [\"x\", \"y\"]\n");
    assert!(doc.get("list").expect("list is there").is_array());
    assert!(doc.get("list.0").is_none());
}

#[test]
fn quoted_key_with_a_dot_is_out_of_reach() {
    let doc = config("\"a.b\" = \"whole\"\n");
    assert!(doc.get("a.b").is_none());
}

#[test]
fn root_is_a_table() {
    assert!(config(NESTED).root_node().is_table());
    assert!(config("").root_node().is_table());
}

#[test]
fn free_function_follows_path_from_any_node() {
    let doc = config(NESTED);
    let a = doc.get("a").expect("a is there");
    assert_eq!(get_by_dotted_path(a, "b.c").and_then(|v| v.as_str()), Some("Hello"));
    assert_eq!(get_by_dotted_path(a, "name").and_then(|v| v.as_str()), Some("A"));
    assert!(get_by_dotted_path(a, "a").is_none());
    let leaf = doc.get("title").expect("title is there");
    assert!(get_by_dotted_path(leaf, "x").is_none());
    assert!(get_by_dotted_path(leaf, "").is_none());
}

#[test]
fn value_built_by_hand_is_resolved_the_same_way() {
    let mut inner = toml::map::Map::new();
    inner.insert("c".to_string(), toml::Value::String("Hello".to_string()));
    let mut outer = toml::map::Map::new();
    outer.insert("b".to_string(), toml::Value::Table(inner));
    let root = toml::Value::Table(outer);
    assert_eq!(get_by_dotted_path(&root, "b.c").and_then(|v| v.as_str()), Some("Hello"));
    assert!(get_by_dotted_path(&root, "b.c.d").is_none());
    assert!(get_by_dotted_path(&toml::Value::Integer(1), "b").is_none());
}

#[test]
fn unreadable_source_is_a_read_failure() {
    let r = TomlConfig::new("lang/xx.toml", Err("permission denied".to_string()));
    match r {
        Err(e) => assert_eq!(
            e,
            LoadError::Read {
                path: "lang/xx.toml".to_string(),
                detail: "permission denied".to_string(),
            }
        ),
        Ok(_) => panic!("a read failure gives no document"),
    }
}

#[test]
fn malformed_content_is_a_parse_failure() {
    let bad = "title = \"unterminated\n[a\n";
    let expected = toml::from_str::<toml::Value>(bad).expect_err("malformed").to_string();
    match TomlConfig::new("lang/bad.toml", Ok(bad.to_string())) {
        Err(e) => assert_eq!(
            e,
            LoadError::Parse { path: "lang/bad.toml".to_string(), detail: expected }
        ),
        Ok(_) => panic!("malformed content gives no document"),
    }
}

#[test]
fn duplicate_key_is_a_parse_failure() {
    let r = TomlConfig::new("p", Ok("a = 1\na = 2\n".to_string()));
    assert!(matches!(r, Err(LoadError::Parse { .. })));
}

#[test]
fn bare_value_is_a_parse_failure() {
    let r = TomlConfig::new("p", Ok("\"just a string\"".to_string()));
    assert!(matches!(r, Err(LoadError::Parse { .. })));
}

#[test]
fn empty_content_is_an_empty_document() {
    let doc = config("");
    assert!(doc.get("anything").is_none());
}

#[test]
fn failure_messages() {
    assert_eq!(LoadError::Unresolved.message(), "no resource location for this locale");
    assert_eq!(
        LoadError::NotFound { path: "lang/de.toml".to_string() }.message(),
        "resource not found: lang/de.toml"
    );
    assert_eq!(
        LoadError::Read { path: "p".to_string(), detail: "denied".to_string() }.message(),
        "failed to read p: denied"
    );
    assert_eq!(
        LoadError::Parse { path: "p".to_string(), detail: "bad".to_string() }.message(),
        "failed to parse p: bad"
    );
}
