use ginsp::commit_index::{load_commits_as_map, parse_log_line};
use ginsp::error::GinspError;
use ginsp::reconcile::{command_diff, unique_by_message, CommitInfo};

fn lines(v: &[&str]) -> Vec<String> {
    v.iter().map(|s| s.to_string()).collect()
}

fn pairs(v: &[CommitInfo]) -> Vec<(String, String)> {
    v.iter().map(|c| (c.hash.clone(), c.message.clone())).collect()
}

#[test]
fn source_only_commit_is_reported() {
    let source = lines(&["aaaaaaa[T-1] fix", "bbbbbbb[T-2] feat"]);
    let target = lines(&["ccccccc[T-2] feat"]);
    let d = command_diff("dev", &source, "main", &target).unwrap();
    assert_eq!(d.source_branch, "dev");
    assert_eq!(d.target_branch, "main");
    assert_eq!(pairs(&d.unique_to_source), vec![("aaaaaaa".to_string(), "[T-1] fix".to_string())]);
    assert!(d.unique_to_target.is_empty());
    assert_eq!(d.unique_to_source[0].status, None);
    assert!(!d.unique_to_source[0].is_picked);
}

#[test]
fn unique_messages_partition_the_source() {
    let a = load_commits_as_map("a", &lines(&["1111111 one", "2222222 two", "3333333 three"])).unwrap();
    let b = load_commits_as_map("b", &lines(&["4444444 two", "5555555 four"])).unwrap();
    let u = unique_by_message(&a, &b);
    let msgs: Vec<String> = u.iter().map(|r| r.1.clone()).collect();
    assert_eq!(msgs, vec!["one".to_string(), "three".to_string()]);
    for m in &msgs {
        assert!(!b.contains_message(m));
    }
    for i in 0..a.len() {
        let (m, _) = a.entry(i);
        assert!(msgs.contains(&m) || b.contains_message(&m));
    }
}

#[test]
fn reconciling_twice_gives_the_same() {
    let a = load_commits_as_map("a", &lines(&["1111111 one", "2222222 two"])).unwrap();
    let b = load_commits_as_map("b", &lines(&["3333333 two"])).unwrap();
    let first: Vec<(String, String)> = unique_by_message(&a, &b).into_iter().map(|r| (r.0, r.1)).collect();
    let second: Vec<(String, String)> = unique_by_message(&a, &b).into_iter().map(|r| (r.0, r.1)).collect();
    assert_eq!(first, second);
}

#[test]
fn disjoint_branches_keep_every_commit_in_order() {
    let a = load_commits_as_map("a", &lines(&["1111111 c", "2222222 b", "3333333 a"])).unwrap();
    let b = load_commits_as_map("b", &lines(&["4444444 x"])).unwrap();
    let u: Vec<(String, String)> = unique_by_message(&a, &b).into_iter().map(|r| (r.0, r.1)).collect();
    assert_eq!(
        u,
        vec![
            ("1111111".to_string(), "c".to_string()),
            ("2222222".to_string(), "b".to_string()),
            ("3333333".to_string(), "a".to_string()),
        ]
    );
}

#[test]
fn empty_branches_have_nothing_unique() {
    let d = command_diff("a", &Vec::new(), "b", &Vec::new()).unwrap();
    assert!(d.unique_to_source.is_empty());
    assert!(d.unique_to_target.is_empty());
}

#[test]
fn log_line_is_cut_after_the_hash_and_trimmed() {
    assert_eq!(
        parse_log_line("abc1234  fix the thing  "),
        Some(("abc1234".to_string(), "fix the thing".to_string()))
    );
    assert_eq!(parse_log_line("abc1234"), None);
    assert_eq!(parse_log_line("abc12"), None);
    assert_eq!(parse_log_line(""), None);
    assert_eq!(parse_log_line("abc1234   "), None);
}

#[test]
fn duplicate_message_keeps_first_place_and_last_hash() {
    let idx = load_commits_as_map("a", &lines(&["1111111 same", "2222222 other", "3333333 same "])).unwrap();
    assert_eq!(idx.len(), 2);
    assert_eq!(idx.entry(0), ("same".to_string(), "3333333".to_string()));
    assert_eq!(idx.entry(1), ("other".to_string(), "2222222".to_string()));
}

#[test]
fn malformed_line_names_branch_and_line() {
    let r = load_commits_as_map("dev", &lines(&["1111111 ok", "bad", "also bad"]));
    match r {
        Err(GinspError::MalformedCommitLine { branch, line }) => {
            assert_eq!(branch, "dev");
            assert_eq!(line, "bad");
        }
        _ => panic!("expected a malformed line"),
    }
    let d = command_diff("dev", &lines(&["1111111 ok"]), "main", &lines(&[""]));
    assert!(matches!(d, Err(GinspError::MalformedCommitLine { ref branch, .. }) if branch == "main"));
}
