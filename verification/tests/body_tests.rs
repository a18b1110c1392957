use ticket_to_ride::name_map::NameMap;
use ticket_to_ride::sync::{
    extract_ticket_marker, format_dependencies_section, format_issue_body,
    format_issue_body_with_deps,
};

#[test]
fn test_format_issue_body() {
    let body = format_issue_body("ttr-0001", "This is the description.\n\n## Design\n\nSome design notes.");

    assert!(body.starts_with("<!-- ticket:ttr-0001 -->"));
    assert!(body.contains("This is the description."));
    assert!(body.contains("## Design"));
    assert!(body.contains("Some design notes."));
    assert!(body.contains("<sub>Synced from ticket `ttr-0001`</sub>"));
}

#[test]
fn test_format_issue_body_marker_at_start() {
    let body = format_issue_body("test-123", "Content");

    // Marker must be at the very start for conflict detection
    assert!(body.starts_with("<!-- ticket:test-123 -->"));
}

#[test]
fn test_extract_ticket_marker() {
    let body = "<!-- ticket:ttr-0001 -->\n\nSome content";
    assert_eq!(extract_ticket_marker(body), Some("ttr-0001"));
}

#[test]
fn test_extract_ticket_marker_missing() {
    let body = "Some content without marker";
    assert_eq!(extract_ticket_marker(body), None);
}

#[test]
fn test_extract_ticket_marker_roundtrip() {
    let original_id = "my-ticket-42";
    let body = format_issue_body(original_id, "Content here");
    let extracted = extract_ticket_marker(&body);
    assert_eq!(extracted, Some(original_id));
}

#[test]
fn test_format_issue_body_with_deps_all_synced() {
    let mut lookup = NameMap::new();
    lookup.insert("ttr-0002".to_string(), 45);
    lookup.insert("ttr-0003".to_string(), 67);

    let deps = vec!["ttr-0002".to_string(), "ttr-0003".to_string()];
    let body = format_issue_body_with_deps("ttr-0001", "Description", &deps, &lookup);

    assert!(body.contains("**Depends on:** #45, #67"));
    assert!(body.contains("<sub>Synced from ticket `ttr-0001`</sub>"));
}

#[test]
fn test_format_issue_body_with_deps_none_synced() {
    let lookup = NameMap::new();
    let deps = vec!["ttr-0002".to_string(), "ttr-0003".to_string()];
    let body = format_issue_body_with_deps("ttr-0001", "Description", &deps, &lookup);

    assert!(body.contains("**Depends on:** `ttr-0002` (not synced), `ttr-0003` (not synced)"));
}

#[test]
fn test_format_issue_body_with_deps_mixed() {
    let mut lookup = NameMap::new();
    lookup.insert("ttr-0002".to_string(), 45);
    // ttr-0003 not in lookup (not synced)

    let deps = vec!["ttr-0002".to_string(), "ttr-0003".to_string()];
    let body = format_issue_body_with_deps("ttr-0001", "Description", &deps, &lookup);

    assert!(body.contains("**Depends on:** #45, `ttr-0003` (not synced)"));
}

#[test]
fn test_format_issue_body_with_no_deps() {
    let lookup = NameMap::new();
    let deps: Vec<String> = vec![];
    let body = format_issue_body_with_deps("ttr-0001", "Description", &deps, &lookup);

    // Should not contain "Depends on" section
    assert!(!body.contains("Depends on"));
    // But still has the footer
    assert!(body.contains("<sub>Synced from ticket `ttr-0001`</sub>"));
}

#[test]
fn test_format_dependencies_section() {
    let mut lookup = NameMap::new();
    lookup.insert("dep-1".to_string(), 10);
    lookup.insert("dep-2".to_string(), 20);

    let deps = vec!["dep-1".to_string(), "dep-2".to_string(), "dep-3".to_string()];
    let section = format_dependencies_section(&deps, &lookup);

    assert_eq!(section, "**Depends on:** #10, #20, `dep-3` (not synced)");
}

#[test]
fn body_without_dependencies_is_exact() {
    let body = format_issue_body("ttr-0001", "Text");
    assert_eq!(
        body,
        "<!-- ticket:ttr-0001 -->\n\nText\n\n---\n<sub>Synced from ticket `ttr-0001`</sub>"
    );
}

#[test]
fn body_with_dependencies_is_exact() {
    let mut lookup = NameMap::new();
    lookup.insert("A".to_string(), 45);
    let deps = vec!["A".to_string(), "B".to_string()];
    let body = format_issue_body_with_deps("t-1", "Text", &deps, &lookup);
    assert_eq!(
        body,
        "<!-- ticket:t-1 -->\n\nText\n\n---\n**Depends on:** #45, `B` (not synced)\n\n---\n<sub>Synced from ticket `t-1`</sub>"
    );
}

#[test]
fn dependency_section_for_a_known_and_an_unknown_ticket() {
    let mut lookup = NameMap::new();
    lookup.insert("A".to_string(), 45);
    let deps = vec!["A".to_string(), "B".to_string()];
    assert_eq!(
        format_dependencies_section(&deps, &lookup),
        "**Depends on:** #45, `B` (not synced)"
    );
}

#[test]
fn footer_ends_every_body() {
    let mut lookup = NameMap::new();
    lookup.insert("x".to_string(), 1);
    let deps = vec!["x".to_string()];
    let with = format_issue_body_with_deps("id", "b", &deps, &lookup);
    let without = format_issue_body_with_deps("id", "b", &[], &lookup);
    assert!(with.ends_with("<sub>Synced from ticket `id`</sub>"));
    assert!(without.ends_with("<sub>Synced from ticket `id`</sub>"));
}

#[test]
fn marker_is_found_anywhere_in_the_body() {
    let body = "Intro\n<!-- ticket:abc --> rest <!-- ticket:def -->";
    assert_eq!(extract_ticket_marker(body), Some("abc"));
}

#[test]
fn marker_without_closing_is_no_marker() {
    assert_eq!(extract_ticket_marker("<!-- ticket:abc"), None);
    assert_eq!(extract_ticket_marker(" --><!-- ticket:abc"), None);
}

#[test]
fn marker_round_trip_with_unicode_and_dependencies() {
    let mut lookup = NameMap::new();
    lookup.insert("dep".to_string(), 7);
    let deps = vec!["dep".to_string()];
    let body = format_issue_body_with_deps("tïcket-é", "Body --> with arrows", &deps, &lookup);
    assert_eq!(extract_ticket_marker(&body), Some("tïcket-é"));
}

#[test]
fn marker_round_trip_with_id_that_ends_in_part_of_the_closing() {
    let body = format_issue_body("x --", "text");
    assert_eq!(extract_ticket_marker(&body), Some("x --"));
}

#[test]
fn large_issue_numbers_are_rendered_in_full() {
    let mut lookup = NameMap::new();
    lookup.insert("a".to_string(), u64::MAX);
    lookup.insert("b".to_string(), 0);
    let deps = vec!["a".to_string(), "b".to_string()];
    assert_eq!(
        format_dependencies_section(&deps, &lookup),
        "**Depends on:** #18446744073709551615, #0"
    );
}
