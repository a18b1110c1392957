use ticket_to_ride::github::projects::{
    find_matching_project, project_number, ProjectNode, ProjectSearch,
};

#[test]
fn test_find_matching_project_by_number() {
    let projects = vec![
        ProjectNode {
            id: "P1".to_string(),
            title: "Project One".to_string(),
            number: 1,
        },
        ProjectNode {
            id: "P2".to_string(),
            title: "Project Two".to_string(),
            number: 2,
        },
    ];

    let result = find_matching_project(&projects, "1", Some(1));
    assert!(result.is_some());
    let p = result.unwrap();
    assert_eq!(p.id, "P1");
    assert_eq!(p.number, 1);
}

#[test]
fn test_find_matching_project_by_name() {
    let projects = vec![
        ProjectNode {
            id: "P1".to_string(),
            title: "Project One".to_string(),
            number: 1,
        },
        ProjectNode {
            id: "P2".to_string(),
            title: "ttr Roadmap".to_string(),
            number: 2,
        },
    ];

    let result = find_matching_project(&projects, "ttr Roadmap", None);
    assert!(result.is_some());
    let p = result.unwrap();
    assert_eq!(p.id, "P2");
    assert_eq!(p.title, "ttr Roadmap");
}

#[test]
fn test_find_matching_project_case_insensitive() {
    let projects = vec![ProjectNode {
        id: "P1".to_string(),
        title: "TTR Roadmap".to_string(),
        number: 1,
    }];

    let result = find_matching_project(&projects, "ttr roadmap", None);
    assert!(result.is_some());
}

#[test]
fn test_find_matching_project_not_found() {
    let projects = vec![ProjectNode {
        id: "P1".to_string(),
        title: "Other Project".to_string(),
        number: 1,
    }];

    let result = find_matching_project(&projects, "ttr Roadmap", None);
    assert!(result.is_none());
}

#[test]
fn test_find_matching_project_number_preferred() {
    let projects = vec![
        ProjectNode {
            id: "P1".to_string(),
            title: "1".to_string(), // name is "1"
            number: 99,
        },
        ProjectNode {
            id: "P2".to_string(),
            title: "Other".to_string(),
            number: 1, // number is 1
        },
    ];

    // Should match by number (1) not by name ("1")
    let result = find_matching_project(&projects, "1", Some(1));
    assert!(result.is_some());
    let p = result.unwrap();
    assert_eq!(p.id, "P2");
    assert_eq!(p.number, 1);
}

fn node(id: &str, title: &str, number: u64) -> ProjectNode {
    ProjectNode { id: id.to_string(), title: title.to_string(), number }
}

#[test]
fn name_is_used_where_no_project_has_the_number() {
    let projects = vec![node("PVT_a", "7", 99), node("PVT_b", "Other", 1)];
    let found = find_matching_project(&projects, "7", Some(7)).unwrap();
    assert_eq!(found.id, "PVT_a");
}

#[test]
fn first_of_several_matches_is_taken() {
    let projects = vec![node("PVT_a", "Road", 3), node("PVT_b", "ROAD", 3)];
    assert_eq!(find_matching_project(&projects, "road", None).unwrap().id, "PVT_a");
    assert_eq!(find_matching_project(&projects, "x", Some(3)).unwrap().id, "PVT_a");
    assert!(find_matching_project(&[], "road", Some(3)).is_none());
}

#[test]
fn project_number_reads_unsigned_integers() {
    assert_eq!(project_number("12"), Some(12));
    assert_eq!(project_number("+12"), Some(12));
    assert_eq!(project_number("0012"), Some(12));
    assert_eq!(project_number(""), None);
    assert_eq!(project_number("+"), None);
    assert_eq!(project_number("-1"), None);
    assert_eq!(project_number("1 "), None);
    assert_eq!(project_number("Q1 Sprint"), None);
    assert_eq!(project_number("18446744073709551615"), Some(u64::MAX));
    assert_eq!(project_number("18446744073709551616"), None);
    for text in ["12", "+12", "0012", "", "+", "-1", "1 ", "++1", "1_0", "٣"] {
        assert_eq!(project_number(text), text.parse::<u64>().ok(), "{:?}", text);
    }
}

#[test]
fn search_goes_from_repository_to_owner() {
    let wanted = vec![node("PVT_c", "Roadmap", 4)];
    let other = vec![node("PVT_a", "Else", 1)];

    let at = ProjectSearch::Repository.listed(&wanted, "roadmap");
    assert!(matches!(at, ProjectSearch::Finished(Some(ref p)) if p.id == "PVT_c"));

    let at = ProjectSearch::Repository.listed(&other, "roadmap");
    assert!(matches!(at, ProjectSearch::OwnerKind));
    let at = at.owner_known(true);
    assert!(matches!(at, ProjectSearch::Organization));
    let at = at.listed(&wanted, "4");
    assert!(matches!(at, ProjectSearch::Finished(Some(ref p)) if p.id == "PVT_c"));

    let at = ProjectSearch::OwnerKind.owner_known(false);
    assert!(matches!(at, ProjectSearch::User));
    let at = at.listed(&other, "roadmap");
    assert!(matches!(at, ProjectSearch::Finished(None)));
}
