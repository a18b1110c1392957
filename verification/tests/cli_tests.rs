use std::collections::HashMap;
use ticket_to_ride::cli::{
    change_reason, classify_ticket, detect_github_repo, is_repo_name, matches_any_id,
    render_initial_config, result_lines, run_failed, select_tickets, summary_line, TicketState,
};
use ticket_to_ride::github::issues::ExistingIssue;
use ticket_to_ride::sync::{format_issue_body, SyncResult, SyncSummary};
use ticket_to_ride::ticket::Ticket;

fn ticket(id: &str, external_ref: Option<&str>) -> Ticket {
    Ticket {
        path: format!("{}.md", id),
        id: id.to_string(),
        status: "open".to_string(),
        deps: vec!["dep".to_string()],
        links: vec![],
        created: None,
        ticket_type: "task".to_string(),
        priority: 2,
        assignee: None,
        external_ref: external_ref.map(|r| r.to_string()),
        parent: None,
        tags: vec![],
        title: "Title".to_string(),
        body: "Body".to_string(),
    }
}

fn issue(number: u64, title: &str, body: &str, state: &str) -> ExistingIssue {
    ExistingIssue {
        id: format!("I_{}", number),
        number,
        title: title.to_string(),
        body: body.to_string(),
        state: state.to_string(),
        url: String::new(),
    }
}

#[test]
fn push_is_for_the_tickets_whose_id_holds_a_given_id() {
    let ids = vec!["0001".to_string(), "ttr-0003".to_string()];
    assert!(matches_any_id("ttr-0001", &ids));
    assert!(matches_any_id("ttr-0003", &ids));
    assert!(!matches_any_id("ttr-0002", &ids));
    assert!(!matches_any_id("ttr-0002", &[]));
    assert!(matches_any_id("anything", &["".to_string()]));

    let tickets = vec![ticket("ttr-0001", None), ticket("ttr-0002", None), ticket("ttr-0003", None)];
    assert_eq!(select_tickets(&tickets, &ids), vec![0, 2]);
    assert_eq!(select_tickets(&tickets, &[]), vec![0, 1, 2]);
    assert!(select_tickets(&tickets, &["zzz".to_string()]).is_empty());
}

#[test]
fn status_names_the_first_difference() {
    let mut existing = HashMap::new();
    let body = format_issue_body("a", "Body");
    existing.insert(1, issue(1, "Title", &body, "OPEN"));
    existing.insert(2, issue(2, "Old", "<!-- ticket:a --> other", "CLOSED"));
    existing.insert(3, issue(3, "Title", "<!-- ticket:a --> other", "CLOSED"));
    existing.insert(4, issue(4, "Title", &body, "CLOSED"));
    existing.insert(5, issue(5, "Title", "no marker", "OPEN"));

    assert_eq!(classify_ticket(&ticket("a", Some("gh-1")), &existing), TicketState::UpToDate);
    assert_eq!(classify_ticket(&ticket("a", Some("gh-2")), &existing), TicketState::TitleChanged);
    assert_eq!(classify_ticket(&ticket("a", Some("gh-3")), &existing), TicketState::BodyChanged);
    assert_eq!(classify_ticket(&ticket("a", Some("gh-4")), &existing), TicketState::StateChanged);
    assert_eq!(classify_ticket(&ticket("a", Some("gh-5")), &existing), TicketState::Conflict);
    assert_eq!(classify_ticket(&ticket("a", Some("gh-6")), &existing), TicketState::Conflict);
    assert_eq!(classify_ticket(&ticket("a", Some("gh-x")), &existing), TicketState::Conflict);
    assert_eq!(classify_ticket(&ticket("b", Some("gh-1")), &existing), TicketState::Conflict);

    assert_eq!(change_reason(TicketState::TitleChanged), Some("title changed"));
    assert_eq!(change_reason(TicketState::BodyChanged), Some("body changed"));
    assert_eq!(change_reason(TicketState::StateChanged), Some("state changed"));
    assert_eq!(change_reason(TicketState::UpToDate), None);
    assert_eq!(change_reason(TicketState::Conflict), None);
}

#[test]
fn repository_is_read_from_the_remote() {
    let some = |s: &str| Some(s.to_string());
    assert_eq!(detect_github_repo("git@github.com:owner/repo.git\n"), some("owner/repo"));
    assert_eq!(detect_github_repo("https://github.com/owner/repo.git"), some("owner/repo"));
    assert_eq!(detect_github_repo("  https://github.com/owner/repo  "), some("owner/repo"));
    assert_eq!(detect_github_repo("https://github.com/owner/repo.git.git"), some("owner/repo"));
    assert_eq!(detect_github_repo("https://github.com/.git"), some(""));
    assert_eq!(detect_github_repo("git@github.com:"), some(""));
    assert_eq!(detect_github_repo("http://github.com/owner/repo"), None);
    assert_eq!(detect_github_repo("git@gitlab.com:owner/repo.git"), None);
    assert_eq!(detect_github_repo("ssh://git@github.com/owner/repo"), None);
    assert_eq!(detect_github_repo(""), None);
}

#[test]
fn repository_names_hold_one_slash() {
    assert!(is_repo_name("owner/repo"));
    assert!(is_repo_name("/"));
    assert!(!is_repo_name("owner"));
    assert!(!is_repo_name("a/b/c"));
    assert!(!is_repo_name(""));
}

#[test]
fn new_configuration_names_what_is_given() {
    let text = render_initial_config("owner/repo", &Some("Roadmap".to_string()), &None);
    assert_eq!(
        text,
        "[github]\nrepo = \"owner/repo\"\nproject = \"Roadmap\"\n# assignee = \"username\"  # Optional: assign all issues to this user\n\n[mapping]\ntype_field = \"Type\"  # Project field name for ticket type\n\n[mapping.type]\nbug = \"Bug\"\nfeature = \"Feature\"\ntask = \"Task\"\nepic = \"Epic\"\nchore = \"Chore\"\n\n[labels]\nsync_tags = true  # Sync ticket tags as GitHub labels\ncreate_missing = true  # Create labels that don't exist\n"
    );
    let text = render_initial_config("o/r", &None, &Some("me".to_string()));
    assert!(text.starts_with(
        "[github]\nrepo = \"o/r\"\n# project = \"Project Name\"  # Optional: GitHub Project to add issues to\nassignee = \"me\"\n\n[mapping]"
    ));
}

#[test]
fn results_are_reported_line_by_line() {
    let t = ticket("ttr-0001", None);
    let created = SyncResult::Created { issue_id: "I".to_string(), issue_number: 42, url: "https://x/42".to_string() };
    assert_eq!(result_lines(&t, &created), vec!["CREATE  ttr-0001 → #42  Title", "  └─ https://x/42"]);
    assert_eq!(result_lines(&t, &SyncResult::Updated { issue_number: 7 }), vec!["UPDATE  ttr-0001 → #7  Title"]);
    assert_eq!(
        result_lines(&t, &SyncResult::Skipped { reason: "no changes".to_string() }),
        vec!["SKIP    ttr-0001  (no changes)"]
    );
    assert_eq!(
        result_lines(&t, &SyncResult::Failed { error: "Issue #9 not found".to_string() }),
        vec!["FAIL    ttr-0001  Issue #9 not found"]
    );
    let summary = SyncSummary { created: 1, updated: 20, skipped: 0, failed: 3 };
    assert_eq!(summary_line(&summary), "Summary: 1 created, 20 updated, 0 skipped, 3 failed");
    assert!(run_failed(&summary));
    assert!(!run_failed(&SyncSummary::default()));
}
