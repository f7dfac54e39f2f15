use pr_summary::{
    extract_key_points, format_affected_files, generate_summary, infer_changes_from_files,
    ChangedFile, FileStatus, PrInfo,
};

fn file(name: &str, status: FileStatus) -> ChangedFile {
    ChangedFile { filename: name.to_string(), status, additions: 1, deletions: 0 }
}

fn pr(title: &str, description: &str, files: Vec<ChangedFile>) -> PrInfo {
    PrInfo {
        title: title.to_string(),
        description: description.to_string(),
        base_branch: "main".to_string(),
        head_branch: "feature".to_string(),
        author: "someone".to_string(),
        changed_files: files,
    }
}

#[test]
fn bullets_and_stars_are_kept_in_order() {
    let points = extract_key_points("- a\n- b\nnot a bullet\n* c");
    assert_eq!(points, vec!["- a", "- b", "- c"]);
}

#[test]
fn numbered_items_are_bullets() {
    let points = extract_key_points("1. first\n  2.  second  \n3x not\n10. tenth");
    assert_eq!(points, vec!["- first", "- second"]);
}

#[test]
fn at_most_five_points() {
    let points = extract_key_points("- 1a\n- b\n- c\n- d\n- e\n- f\n- g");
    assert_eq!(points.len(), 5);
    assert_eq!(points, vec!["- 1a", "- b", "- c", "- d", "- e"]);
}

#[test]
fn empty_bullets_are_skipped() {
    let points = extract_key_points("-\n*   \n- real\r\n");
    assert_eq!(points, vec!["- real"]);
    assert!(extract_key_points("").is_empty());
}

#[test]
fn mixed_group_gives_tests_and_update() {
    let files = vec![file("tests/a.rs", FileStatus::Modified), file("tests/b.rs", FileStatus::Added)];
    let points = infer_changes_from_files(&files);
    assert!(points.contains(&"- Added or updated tests".to_string()));
    assert!(points.contains(&"- Updated tests component/module".to_string()));
    assert!(!points.contains(&"- Added new tests component/module".to_string()));
    assert!(!points.contains(&"- Removed tests component/module".to_string()));
}

#[test]
fn single_readme_gives_documentation_only() {
    let files = vec![file("README.md", FileStatus::Modified)];
    let points = infer_changes_from_files(&files);
    assert_eq!(points, vec!["- Updated documentation"]);
}

#[test]
fn group_rules() {
    let files = vec![
        file("lib/a.rs", FileStatus::Added),
        file("lib/b.rs", FileStatus::Added),
        file("old/a.rs", FileStatus::Removed),
        file("old/b.rs", FileStatus::Removed),
        file("mv/a.rs", FileStatus::Renamed),
        file("mv/b.rs", FileStatus::Renamed),
        file("x.rs", FileStatus::Modified),
        file("y.rs", FileStatus::Modified),
    ];
    let points = infer_changes_from_files(&files);
    assert_eq!(
        points,
        vec!["- Added new lib component/module", "- Removed old component/module"]
    );
}

#[test]
fn fallback_counts_all_files() {
    let mut files = Vec::new();
    for i in 0..12 {
        files.push(file(&format!("f{}.rs", i), FileStatus::Renamed));
    }
    let points = infer_changes_from_files(&files);
    assert_eq!(points, vec!["- Modified 12 files"]);
    assert!(infer_changes_from_files(&[]).is_empty());
}

#[test]
fn affected_files_one_line_per_file() {
    let files = vec![
        file("a.rs", FileStatus::Added),
        file("src/b.rs", FileStatus::Modified),
        file("c.rs", FileStatus::Removed),
        file("d.rs", FileStatus::Renamed),
    ];
    assert_eq!(format_affected_files(&files), "[+] a.rs\n[M] src/b.rs\n[-] c.rs\n[R] d.rs\n");
    assert_eq!(format_affected_files(&[]), "");
}

#[test]
fn title_plus_inferred_point() {
    let files = vec![
        file("src/a.rs", FileStatus::Modified),
        file("src/b.rs", FileStatus::Modified),
        file("src/c.rs", FileStatus::Modified),
    ];
    let s = generate_summary(&pr("Fix bug", "", files));
    assert_eq!(s.description, "- Fix bug\n- Updated src component/module");
    assert_eq!(s.affected_files, "[M] src/a.rs\n[M] src/b.rs\n[M] src/c.rs\n");
}

#[test]
fn summary_is_repeatable() {
    let make = || {
        pr(
            "Tidy",
            "- one\n* two",
            vec![file("docs/x.md", FileStatus::Added), file("src/y.rs", FileStatus::Removed)],
        )
    };
    let a = generate_summary(&make());
    let b = generate_summary(&make());
    assert_eq!(a.description, b.description);
    assert_eq!(a.affected_files, b.affected_files);
    assert_eq!(a.description, "- Tidy\n- one\n- two");
}

#[test]
fn title_point_is_not_repeated() {
    let files = vec![file("README.md", FileStatus::Modified)];
    let s = generate_summary(&pr("Updated documentation", "", files));
    assert_eq!(s.description, "- Updated documentation");
}

#[test]
fn empty_pull_request() {
    let s = generate_summary(&pr("", "", Vec::new()));
    assert_eq!(s.description, "");
    assert_eq!(s.affected_files, "");
}

#[test]
fn status_words() {
    assert_eq!(FileStatus::from_str("added"), FileStatus::Added);
    assert_eq!(FileStatus::from_str("removed"), FileStatus::Removed);
    assert_eq!(FileStatus::from_str("renamed"), FileStatus::Renamed);
    assert_eq!(FileStatus::from_str("modified"), FileStatus::Modified);
    assert_eq!(FileStatus::from_str("copied"), FileStatus::Modified);
}

#[test]
fn listing_line_k_is_tag_and_name_of_file_k() {
    let files = vec![
        file("b/x.rs", FileStatus::Removed),
        file("a.md", FileStatus::Added),
        file("c", FileStatus::Renamed),
    ];
    let s = generate_summary(&pr("T", "", files));
    let lines: Vec<&str> = s.affected_files.split_terminator('\n').collect();
    assert_eq!(lines, vec!["[-] b/x.rs", "[+] a.md", "[R] c"]);
    let titled = s.description.split('\n').filter(|l| *l == "- T").count();
    assert_eq!(titled, 1);
}
