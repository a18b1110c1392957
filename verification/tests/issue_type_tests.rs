use ticket_to_ride::name_map::NameMap;
use ticket_to_ride::sync::{resolve_issue_type, validate_issue_type_mappings};

#[test]
fn test_resolve_issue_type_with_valid_mapping() {
    let mut type_map = NameMap::new();
    type_map.insert("bug".to_string(), "Bug".to_string());
    type_map.insert("task".to_string(), "Task".to_string());

    let mut cache = NameMap::new();
    cache.insert("bug".to_string(), "IT_bug_id".to_string());
    cache.insert("task".to_string(), "IT_task_id".to_string());

    assert_eq!(
        resolve_issue_type("bug", &type_map, &cache),
        Some("IT_bug_id".to_string())
    );
    assert_eq!(
        resolve_issue_type("task", &type_map, &cache),
        Some("IT_task_id".to_string())
    );
}

#[test]
fn test_resolve_issue_type_case_insensitive() {
    let mut type_map = NameMap::new();
    type_map.insert("bug".to_string(), "BUG".to_string()); // uppercase in config

    let mut cache = NameMap::new();
    cache.insert("bug".to_string(), "IT_bug_id".to_string()); // lowercase in cache

    assert_eq!(
        resolve_issue_type("bug", &type_map, &cache),
        Some("IT_bug_id".to_string())
    );
}

#[test]
fn test_resolve_issue_type_no_mapping() {
    let type_map = NameMap::new(); // no mappings

    let mut cache = NameMap::new();
    cache.insert("bug".to_string(), "IT_bug_id".to_string());

    // No mapping for "bug" in type_map
    assert_eq!(resolve_issue_type("bug", &type_map, &cache), None);
}

#[test]
fn test_resolve_issue_type_empty_cache() {
    let mut type_map = NameMap::new();
    type_map.insert("bug".to_string(), "Bug".to_string());

    let cache = NameMap::new(); // personal repo, no issue types

    // Should return None when cache is empty
    assert_eq!(resolve_issue_type("bug", &type_map, &cache), None);
}

#[test]
fn test_resolve_issue_type_unknown_ticket_type() {
    let mut type_map = NameMap::new();
    type_map.insert("bug".to_string(), "Bug".to_string());

    let mut cache = NameMap::new();
    cache.insert("bug".to_string(), "IT_bug_id".to_string());

    // "epic" not in type_map
    assert_eq!(resolve_issue_type("epic", &type_map, &cache), None);
}

#[test]
fn test_validate_issue_type_mappings_valid() {
    let mut type_map = NameMap::new();
    type_map.insert("bug".to_string(), "Bug".to_string());
    type_map.insert("task".to_string(), "Task".to_string());

    let mut cache = NameMap::new();
    cache.insert("bug".to_string(), "IT_bug_id".to_string());
    cache.insert("task".to_string(), "IT_task_id".to_string());

    assert!(validate_issue_type_mappings(&type_map, &cache).is_ok());
}

#[test]
fn test_validate_issue_type_mappings_invalid() {
    let mut type_map = NameMap::new();
    type_map.insert("bug".to_string(), "Bug".to_string());
    type_map.insert("epic".to_string(), "Epic".to_string()); // Epic doesn't exist

    let mut cache = NameMap::new();
    cache.insert("bug".to_string(), "IT_bug_id".to_string());
    cache.insert("task".to_string(), "IT_task_id".to_string());

    let result = validate_issue_type_mappings(&type_map, &cache);
    assert!(result.is_err());
    let err = result.unwrap_err();
    assert!(err.contains("epic"));
    assert!(err.contains("Epic"));
    assert!(err.contains("not found"));
}

#[test]
fn test_validate_issue_type_mappings_empty_cache_skips() {
    let mut type_map = NameMap::new();
    type_map.insert("epic".to_string(), "Epic".to_string());

    let cache = NameMap::new(); // personal repo

    // Should pass - validation skipped for personal repos
    assert!(validate_issue_type_mappings(&type_map, &cache).is_ok());
}

#[test]
fn test_validate_issue_type_mappings_empty_type_map_skips() {
    let type_map = NameMap::new(); // no mappings configured

    let mut cache = NameMap::new();
    cache.insert("bug".to_string(), "IT_bug_id".to_string());

    // Should pass - no mappings to validate
    assert!(validate_issue_type_mappings(&type_map, &cache).is_ok());
}

#[test]
fn test_validate_issue_type_mappings_case_insensitive() {
    let mut type_map = NameMap::new();
    type_map.insert("bug".to_string(), "BUG".to_string()); // uppercase

    let mut cache = NameMap::new();
    cache.insert("bug".to_string(), "IT_bug_id".to_string()); // lowercase

    // Should pass - case insensitive matching
    assert!(validate_issue_type_mappings(&type_map, &cache).is_ok());
}

#[test]
fn mapping_error_names_the_pair_and_lists_the_types() {
    let mut type_map = NameMap::new();
    type_map.insert("bug".to_string(), "Bug".to_string());
    type_map.insert("epic".to_string(), "Epic".to_string());
    type_map.insert("story".to_string(), "Story".to_string());

    let mut cache = NameMap::new();
    cache.insert("bug".to_string(), "IT_bug_id".to_string());
    cache.insert("ta\"sk".to_string(), "IT_task_id".to_string());

    assert_eq!(
        validate_issue_type_mappings(&type_map, &cache).unwrap_err(),
        "Issue type mapping error: 'epic' -> 'Epic' not found.\nAvailable issue types: [\"bug\", \"ta\\\"sk\"]"
    );
}

#[test]
fn name_map_keeps_order_and_replaces_in_place() {
    let mut map = NameMap::new();
    assert!(map.is_empty());
    map.insert("b".to_string(), 1);
    map.insert("a".to_string(), 2);
    map.insert("b".to_string(), 3);
    assert_eq!(map.len(), 2);
    assert_eq!(map.key_at(0), "b");
    assert_eq!(*map.value_at(0), 3);
    assert_eq!(map.key_at(1), "a");
    assert_eq!(map.get("a"), Some(&2));
    assert_eq!(map.get("b"), Some(&3));
    assert_eq!(map.get("c"), None);
    assert!(map.contains_key("a"));
    assert!(!map.contains_key("A"));
    assert_eq!(map.keys(), vec!["b", "a"]);
}
