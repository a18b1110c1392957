use ticket_to_ride::document::{extract_body, extract_title, with_external_ref};
use ticket_to_ride::ticket::{
    default_priority, default_status, default_type, external_ref_for, Frontmatter, Ticket,
};

fn ticket_with_ref(external_ref: Option<&str>) -> Ticket {
    Ticket {
        path: "test-001.md".to_string(),
        id: "test-001".to_string(),
        status: default_status(),
        deps: vec![],
        links: vec![],
        created: None,
        ticket_type: default_type(),
        priority: default_priority(),
        assignee: None,
        external_ref: external_ref.map(|r| r.to_string()),
        parent: None,
        tags: vec![],
        title: "Test".to_string(),
        body: String::new(),
    }
}

fn front(id: &str) -> Frontmatter {
    Frontmatter {
        id: id.to_string(),
        status: default_status(),
        deps: vec![],
        links: vec![],
        created: None,
        ticket_type: default_type(),
        priority: default_priority(),
        assignee: None,
        external_ref: None,
        parent: None,
        tags: vec![],
    }
}

#[test]
fn test_parse_minimal_ticket() {
    let content = "---\nid: test-001\n---\n# Test Ticket\n\nThis is a test.\n";
    let ticket = Ticket::parse("t.md".to_string(), content, Some(front("test-001"))).unwrap();

    assert_eq!(ticket.id, "test-001");
    assert_eq!(ticket.status, "open");
    assert_eq!(ticket.ticket_type, "task");
    assert_eq!(ticket.priority, 2);
    assert_eq!(ticket.title, "Test Ticket");
    assert!(ticket.body.contains("This is a test"));
}

#[test]
fn test_parse_full_ticket() {
    let content = "---\nid: ttr-0001\nstatus: in_progress\ndeps: [ttr-0002, ttr-0003]\nlinks: []\ncreated: 2026-01-29T18:00:00Z\ntype: epic\npriority: 0\nassignee: acmyers\nexternal-ref: gh-123\nparent: parent-001\ntags: [setup, core]\n---\n# Full Test Ticket\n\nDescription here.\n\n## Design\n\nDesign notes.\n\n## Acceptance Criteria\n\n- [ ] Criterion 1\n\n## Notes\n\n**2026-01-29T12:00:00Z**\n\nThis note should not appear in body.\n";
    let frontmatter = Frontmatter {
        id: "ttr-0001".to_string(),
        status: "in_progress".to_string(),
        deps: vec!["ttr-0002".to_string(), "ttr-0003".to_string()],
        links: vec![],
        created: Some("2026-01-29T18:00:00Z".to_string()),
        ticket_type: "epic".to_string(),
        priority: 0,
        assignee: Some("acmyers".to_string()),
        external_ref: Some("gh-123".to_string()),
        parent: Some("parent-001".to_string()),
        tags: vec!["setup".to_string(), "core".to_string()],
    };
    let ticket = Ticket::parse("t.md".to_string(), content, Some(frontmatter)).unwrap();

    assert_eq!(ticket.id, "ttr-0001");
    assert_eq!(ticket.status, "in_progress");
    assert_eq!(ticket.deps, vec!["ttr-0002", "ttr-0003"]);
    assert_eq!(ticket.ticket_type, "epic");
    assert_eq!(ticket.priority, 0);
    assert_eq!(ticket.assignee, Some("acmyers".to_string()));
    assert_eq!(ticket.external_ref, Some("gh-123".to_string()));
    assert_eq!(ticket.parent, Some("parent-001".to_string()));
    assert_eq!(ticket.tags, vec!["setup", "core"]);
    assert_eq!(ticket.title, "Full Test Ticket");
    assert!(ticket.body.contains("Description here"));
    assert!(ticket.body.contains("Design notes"));
    assert!(ticket.body.contains("Criterion 1"));
    assert!(!ticket.body.contains("This note should not appear"));
    assert_eq!(
        ticket.body,
        "Description here.\n\n## Design\n\nDesign notes.\n\n## Acceptance Criteria\n\n- [ ] Criterion 1"
    );
}

#[test]
fn file_without_front_matter_is_no_ticket() {
    let error = Ticket::parse("notes.md".to_string(), "# Just text\n", Some(front("x"))).unwrap_err();
    assert_eq!(error, "No frontmatter found in notes.md");
    let error = Ticket::parse("a.md".to_string(), "---\nid: a\n---\n# T\n", None).unwrap_err();
    assert_eq!(error, "No frontmatter found in a.md");
    assert!(Ticket::parse("e.md".to_string(), "", Some(front("x"))).is_err());
}

#[test]
fn title_and_body_come_from_below_the_front_matter() {
    let content = "---\nid: a\ntitle: not this\n---\n\n\n# Real Title\nBody line\n---\nafter a rule\n";
    let ticket = Ticket::parse("a.md".to_string(), content, Some(front("a"))).unwrap();
    assert_eq!(ticket.title, "Real Title");
    assert_eq!(ticket.body, "Body line\n---\nafter a rule");
    assert_eq!(ticket.path, "a.md");
    let copy = ticket.clone();
    assert_eq!(copy.title, ticket.title);
    assert_eq!(copy.body, ticket.body);
    assert_eq!(copy.id, "a");
}

#[test]
fn ticket_is_assembled_from_its_parts() {
    let ticket = Ticket::from_front_matter("t.md".to_string(), front("test-001"), "\n# Test Ticket\n\nThis is a test.\n\n");
    assert_eq!(ticket.title, "Test Ticket");
    assert_eq!(ticket.body, "This is a test.");
}

#[test]
fn test_is_synced() {
    let ticket = ticket_with_ref(Some("gh-456"));

    assert!(ticket.is_synced());
    assert_eq!(ticket.github_issue_number(), Some(456));
}

#[test]
fn test_not_synced() {
    let ticket = ticket_with_ref(None);

    assert!(!ticket.is_synced());
    assert_eq!(ticket.github_issue_number(), None);
}

#[test]
fn test_github_issue_number_parsing() {
    let ticket = ticket_with_ref(Some("gh-12345"));
    assert_eq!(ticket.github_issue_number(), Some(12345));
}

#[test]
fn test_github_issue_number_invalid() {
    let ticket = ticket_with_ref(Some("jira-123"));
    // Not a gh- ref, so not synced to GitHub
    assert!(!ticket.is_synced());
    assert_eq!(ticket.github_issue_number(), None);
}

#[test]
fn references_must_be_digits_after_the_prefix() {
    for bad in ["gh-", "gh-abc", "gh-12a", "gh- 12", "gh-+12", "gh--1", "GH-12", "gh12", "xgh-12", ""] {
        let ticket = ticket_with_ref(Some(bad));
        assert!(!ticket.is_synced(), "{:?}", bad);
        assert_eq!(ticket.github_issue_number(), None, "{:?}", bad);
    }
    let ticket = ticket_with_ref(Some("gh-007"));
    assert!(ticket.is_synced());
    assert_eq!(ticket.github_issue_number(), Some(7));
}

#[test]
fn reference_to_a_number_beyond_64_bits_has_no_number() {
    let ticket = ticket_with_ref(Some("gh-18446744073709551615"));
    assert_eq!(ticket.github_issue_number(), Some(u64::MAX));
    let ticket = ticket_with_ref(Some("gh-18446744073709551616"));
    assert!(ticket.is_synced());
    assert_eq!(ticket.github_issue_number(), None);
    let ticket = ticket_with_ref(Some("gh-99999999999999999999999999"));
    assert!(ticket.is_synced());
    assert_eq!(ticket.github_issue_number(), None);
}

#[test]
fn reference_for_a_number_reads_back_as_that_number() {
    for number in [0, 1, 9, 10, 42, 12345, u64::MAX] {
        let reference = external_ref_for(number);
        assert_eq!(reference, format!("gh-{}", number));
        let mut ticket = ticket_with_ref(None);
        ticket.set_external_ref(&reference);
        assert!(ticket.is_synced());
        assert_eq!(ticket.github_issue_number(), Some(number));
        assert_eq!(ticket.id, "test-001");
    }
}

#[test]
fn test_write_external_ref_new() {
    let content = "---\nid: test-001\nstatus: open\ntags: []\n---\n# Test\n";
    let updated = with_external_ref(content, "gh-789");
    assert_eq!(
        updated,
        "---\nid: test-001\nstatus: open\ntags: []\nexternal-ref: gh-789\n---\n# Test\n"
    );
}

#[test]
fn test_write_external_ref_update() {
    let content = "---\nid: test-001\nexternal-ref: gh-123\n---\n# Test\n";
    let updated = with_external_ref(content, "gh-456");
    assert_eq!(updated, "---\nid: test-001\nexternal-ref: gh-456\n---\n# Test\n");
}

#[test]
fn test_write_external_ref_with_code_block_example() {
    let content = "---\nid: test-001\nstatus: open\ntags: []\n---\n# Test Ticket\n\nHere's an example ticket:\n\n```yaml\n---\nid: example\nexternal-ref: gh-999\n---\n```\n\nMore content here.\n";
    let updated = with_external_ref(content, "gh-123");

    // The code block example should still have its original value
    assert!(updated.contains("external-ref: gh-999")); // in code block
    assert!(updated.contains("external-ref: gh-123")); // in frontmatter
    assert_eq!(
        updated,
        "---\nid: test-001\nstatus: open\ntags: []\nexternal-ref: gh-123\n---\n# Test Ticket\n\nHere's an example ticket:\n\n```yaml\n---\nid: example\nexternal-ref: gh-999\n---\n```\n\nMore content here.\n"
    );
}

#[test]
fn test_write_external_ref_with_body_mention() {
    let content = "---\nid: test-001\nstatus: open\n---\n# Test Ticket\n\nMake sure external-ref: gh-{number} is written back to ticket files.\n";
    let updated = with_external_ref(content, "gh-42");
    assert_eq!(
        updated,
        "---\nid: test-001\nstatus: open\nexternal-ref: gh-42\n---\n# Test Ticket\n\nMake sure external-ref: gh-{number} is written back to ticket files.\n"
    );
}

#[test]
fn writing_the_reference_twice_changes_nothing_more() {
    let content = "---\nid: a\n---\nbody";
    let once = with_external_ref(content, "gh-1");
    assert_eq!(once, "---\nid: a\nexternal-ref: gh-1\n---\nbody\n");
    assert_eq!(with_external_ref(&once, "gh-1"), once);
    assert_eq!(with_external_ref(&once, "gh-2"), "---\nid: a\nexternal-ref: gh-2\n---\nbody\n");
}

#[test]
fn file_without_a_closed_head_only_gets_its_final_line_feed() {
    assert_eq!(with_external_ref("no head", "gh-1"), "no head\n");
    assert_eq!(with_external_ref("---\nid: a\n", "gh-1"), "---\nid: a\n");
    assert_eq!(with_external_ref("", "gh-1"), "\n");
    assert_eq!(with_external_ref("a\n\n", "gh-1"), "a\n");
}

#[test]
fn every_reference_line_of_the_head_is_replaced() {
    let content = "intro\n---\nexternal-ref: a\nexternal-ref:b\n---\nexternal-ref: c\n---\nexternal-ref: d\n";
    assert_eq!(
        with_external_ref(content, "gh-5"),
        "intro\n---\nexternal-ref: gh-5\nexternal-ref: gh-5\n---\nexternal-ref: c\n---\nexternal-ref: d\n"
    );
}

#[test]
fn carriage_returns_before_line_feeds_are_dropped() {
    assert_eq!(
        with_external_ref("---\r\nid: a\r\n---\r\nx\r", "gh-1"),
        "---\nid: a\nexternal-ref: gh-1\n---\nx\r\n"
    );
}

#[test]
fn test_extract_body_filters_notes() {
    let content = "# Title\n\nDescription.\n\n## Design\n\nDesign stuff.\n\n## Notes\n\n**2026-01-29**\nNote 1\n\n**2026-01-30**\nNote 2\n";
    let body = extract_body(content);
    assert!(body.contains("Description"));
    assert!(body.contains("Design stuff"));
    assert!(!body.contains("Note 1"));
    assert!(!body.contains("Note 2"));
}

#[test]
fn test_extract_body_with_section_after_notes() {
    let content = "# Title\n\nIntro.\n\n## Notes\n\nSome notes.\n\n## References\n\nThis should be included.\n";
    let body = extract_body(content);
    assert!(body.contains("Intro"));
    assert!(!body.contains("Some notes"));
    assert!(body.contains("This should be included"));
}

#[test]
fn extracted_body_is_exact() {
    let content = "# Title\n\nIntro.\n\n## Notes\n\nSome notes.\n\n## References\n\nKept.\n\n";
    assert_eq!(extract_body(content), "Intro.\n\n## References\n\nKept.");
    assert_eq!(extract_body("# Title\n# Second title\nText\n# Heading in text\n"), "Text\n# Heading in text");
    assert_eq!(extract_body("## Notes on nothing\nx\n## Next"), "## Next");
    assert_eq!(extract_body(""), "");
    assert_eq!(extract_body("\u{a0} a \u{3000}\n\t"), "a");
}

fn body_by_std(content: &str) -> String {
    let mut result = Vec::new();
    let mut in_notes = false;
    for line in content.lines() {
        if line.starts_with("# ") && result.is_empty() {
            continue;
        }
        if line.starts_with("## Notes") {
            in_notes = true;
            continue;
        }
        if in_notes && line.starts_with("## ") {
            in_notes = false;
        }
        if !in_notes {
            result.push(line);
        }
    }
    result.join("\n").trim().to_string()
}

#[test]
fn extracted_body_follows_the_lines_and_white_space_of_std() {
    for content in [
        "a\r\nb\rc\n\rd\r\n",
        "\r\n\r\n# T\r\nx\r",
        "  \u{2003}lead\n## Notes\nn\n## X\ntrail \u{85}\u{2028}\n",
        "\u{200b}zero width is no white space\u{200b}",
        "\u{1680}\u{2000}\u{200a}\u{202f}\u{205f}x\u{b}\u{c}\u{1c}",
        "no newline",
        "\n\n\n",
    ] {
        assert_eq!(extract_body(content), body_by_std(content), "{:?}", content);
    }
}

#[test]
fn title_is_what_follows_the_first_heading_mark() {
    assert_eq!(extract_title("intro\n# My Title\n# Other"), "My Title");
    assert_eq!(extract_title("# # Twice"), "Twice");
    assert_eq!(extract_title("#No space\n## Section"), "Untitled");
    assert_eq!(extract_title(""), "Untitled");
    assert_eq!(extract_title("# "), "");
}
