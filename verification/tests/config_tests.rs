use gamestate::config::ConfigError;
use gamestate::config::config_get;
use gamestate::config::is_implemented_name;
use gamestate::config::parse_character_config;
use gamestate::config::read_character_config_skip_not_implemented;

const CATALOG: &str = r#"{
  "Items": [
    {"Name": "Uma", "BaseHealth": "100"},
    {"Name": "Dagna", "BaseHealth": "90"},
    {"Name": "Muflus", "BaseHealth": "120"},
    {"Name": "H4ck", "BaseHealth": "80"}
  ]
}"#;

fn name_of(record: &Vec<(String, String)>) -> String {
    config_get(record, &"Name".to_string()).expect("record without a Name")
}

#[test]
fn parses_all_catalog_records() {
    let records = parse_character_config(CATALOG).expect("catalog should parse");
    assert_eq!(records.len(), 4);
    let names: Vec<String> = records.iter().map(name_of).collect();
    assert_eq!(names, vec!["Uma", "Dagna", "Muflus", "H4ck"]);
}

#[test]
fn parsed_records_keep_all_attributes() {
    let records = parse_character_config(CATALOG).expect("catalog should parse");
    let uma = &records[0];
    assert_eq!(uma.len(), 2);
    assert_eq!(
        config_get(uma, &"BaseHealth".to_string()),
        Some("100".to_string())
    );
    assert_eq!(config_get(uma, &"Armor".to_string()), None);
}

#[test]
fn skip_not_implemented_keeps_only_implemented_kinds() {
    let records = parse_character_config(CATALOG).expect("catalog should parse");
    let kept = read_character_config_skip_not_implemented(records);
    let names: Vec<String> = kept.iter().map(name_of).collect();
    assert_eq!(names, vec!["Uma", "Muflus", "H4ck"]);
}

#[test]
fn skip_not_implemented_drops_records_without_a_name() {
    let records = vec![
        vec![("BaseHealth".to_string(), "50".to_string())],
        vec![("Name".to_string(), "Uma".to_string())],
    ];
    let kept = read_character_config_skip_not_implemented(records);
    assert_eq!(kept.len(), 1);
    assert_eq!(name_of(&kept[0]), "Uma");
}

#[test]
fn config_get_returns_the_first_match() {
    let record = vec![
        ("Name".to_string(), "Uma".to_string()),
        ("Name".to_string(), "Muflus".to_string()),
    ];
    assert_eq!(
        config_get(&record, &"Name".to_string()),
        Some("Uma".to_string())
    );
}

#[test]
fn implemented_names_are_exactly_the_three_kinds() {
    assert!(is_implemented_name(&"Muflus".to_string()));
    assert!(is_implemented_name(&"Uma".to_string()));
    assert!(is_implemented_name(&"H4ck".to_string()));
    assert!(!is_implemented_name(&"Dagna".to_string()));
    assert!(!is_implemented_name(&"uma".to_string()));
    assert!(!is_implemented_name(&"".to_string()));
}

#[test]
fn invalid_json_is_rejected() {
    assert_eq!(
        parse_character_config("not json at all"),
        Err(ConfigError::InvalidJson)
    );
}

#[test]
fn non_object_top_level_is_rejected() {
    assert_eq!(
        parse_character_config("[1, 2, 3]"),
        Err(ConfigError::NotAnObject)
    );
}

#[test]
fn missing_items_entry_is_rejected() {
    assert_eq!(
        parse_character_config(r#"{"Characters": []}"#),
        Err(ConfigError::MissingItems)
    );
}

#[test]
fn non_array_items_entry_is_rejected() {
    assert_eq!(
        parse_character_config(r#"{"Items": {"Name": "Uma"}}"#),
        Err(ConfigError::ItemsNotAnArray)
    );
}

#[test]
fn non_object_character_entry_is_rejected() {
    assert_eq!(
        parse_character_config(r#"{"Items": ["Uma"]}"#),
        Err(ConfigError::CharacterNotAnObject)
    );
}

#[test]
fn non_string_attribute_value_is_rejected() {
    assert_eq!(
        parse_character_config(r#"{"Items": [{"Name": "Uma", "BaseHealth": 100}]}"#),
        Err(ConfigError::AttributeNotAString)
    );
}

#[test]
fn empty_items_list_parses_to_no_records() {
    let records = parse_character_config(r#"{"Items": []}"#).expect("should parse");
    assert!(records.is_empty());
    let kept = read_character_config_skip_not_implemented(records);
    assert!(kept.is_empty());
}
