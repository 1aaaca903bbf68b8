use githop::git::{parse_branch_names, parse_branches};

#[test]
fn parse_branches_detects_current_branch() {
    let output = "  feature-a\n* main\n  feature-b\n";
    let merged = vec!["main".to_string(), "feature-a".to_string()];
    let branches = parse_branches(output, &merged);

    assert_eq!(branches.len(), 3);
    assert!(!branches[0].is_current);
    assert!(branches[1].is_current);
    assert!(!branches[2].is_current);
    assert_eq!(branches[1].name, "main");
}

#[test]
fn parse_branches_detects_merged_status() {
    let output = "  feature-a\n* main\n  feature-b\n";
    let merged = vec!["main".to_string(), "feature-a".to_string()];
    let branches = parse_branches(output, &merged);

    assert!(branches[0].is_merged); // feature-a
    assert!(branches[1].is_merged); // main
    assert!(!branches[2].is_merged); // feature-b
}

#[test]
fn parse_branches_skips_empty_lines() {
    let output = "  feature-a\n\n* main\n  \n";
    let branches = parse_branches(output, &[]);

    assert_eq!(branches.len(), 2);
    assert_eq!(branches[0].name, "feature-a");
    assert_eq!(branches[1].name, "main");
}

#[test]
fn parse_branches_empty_output() {
    let branches = parse_branches("", &[]);
    assert!(branches.is_empty());
}

#[test]
fn parse_branches_no_merged() {
    let output = "* main\n  dev\n";
    let branches = parse_branches(output, &[]);

    assert_eq!(branches.len(), 2);
    assert!(!branches[0].is_merged);
    assert!(!branches[1].is_merged);
}

#[test]
fn parse_branch_names_extracts_names() {
    let output = "  feature-a\n* main\n  feature-b\n";
    let names = parse_branch_names(output);

    assert_eq!(names, vec!["feature-a", "main", "feature-b"]);
}

#[test]
fn parse_branch_names_keeps_blank_lines_as_empty_names() {
    let names = parse_branch_names("* main\n\n  dev");
    assert_eq!(names, vec!["main", "", "dev"]);
}

#[test]
fn parse_branches_handles_crlf_and_unicode_whitespace() {
    let output = "  feature-a\r\n* main\r\n\u{3000}dev\u{a0}\n";
    let branches = parse_branches(output, &["dev".to_string()]);
    assert_eq!(branches.len(), 3);
    assert_eq!(branches[0].name, "feature-a");
    assert_eq!(branches[1].name, "main");
    assert!(branches[1].is_current);
    assert_eq!(branches[2].name, "dev");
    assert!(branches[2].is_merged);
}

#[test]
fn parse_branches_current_marker_only_at_line_start() {
    let branches = parse_branches(" * odd\n* * twice\n", &[]);
    assert_eq!(branches.len(), 2);
    assert!(!branches[0].is_current);
    assert_eq!(branches[0].name, "odd");
    assert!(branches[1].is_current);
    assert_eq!(branches[1].name, "twice");
}
