use ginsp::error::GinspError;
use ginsp::reconcile::CommitInfo;
use ginsp::replay::{ReplayAction, ReplaySession};

fn commit(hash: &str, message: &str) -> CommitInfo {
    CommitInfo { hash: hash.to_string(), message: message.to_string(), status: None, is_picked: false }
}

fn args(session: &ReplaySession, a: ReplayAction) -> Vec<String> {
    session.command(a).unwrap().args
}

fn strs(v: &[&str]) -> Vec<String> {
    v.iter().map(|s| s.to_string()).collect()
}

#[test]
fn no_patterns_means_nothing_to_do() {
    let (session, a) = ReplaySession::start(
        "main".to_string(),
        Vec::new(),
        vec![commit("h1", "[T-1] fix a"), commit("h2", "[T-3] feat b")],
    );
    assert_eq!(a, ReplayAction::Completed);
    assert!(session.is_finished());
    assert!(session.command(a).is_none());
    let commits = session.outcome(a).unwrap();
    assert_eq!(commits.len(), 2);
    assert!(commits.iter().all(|c| !c.is_picked));
}

#[test]
fn replays_oldest_first_and_skips_unmatched() {
    let (mut s, a) = ReplaySession::start(
        "main".to_string(),
        strs(&["fix"]),
        vec![commit("h1", "[T-1] fix a"), commit("h2", "[T-3] feat b")],
    );
    assert_eq!(a, ReplayAction::ReadCurrentBranch);
    assert_eq!(args(&s, a), strs(&["rev-parse", "--abbrev-ref", "HEAD"]));
    let a = s.resume(Ok("main\n".to_string()));
    assert_eq!(a, ReplayAction::ReadHead);
    assert_eq!(args(&s, a), strs(&["log", "-1", "--pretty=%h"]));
    let a = s.resume(Ok("c0ffee0\n".to_string()));
    assert_eq!(s.checkpoint(), "c0ffee0");
    assert_eq!(a, ReplayAction::CherryPick(0));
    assert_eq!(args(&s, a), strs(&["cherry-pick", "h1"]));
    let a = s.resume(Ok(String::new()));
    assert_eq!(a, ReplayAction::Completed);
    let commits = s.outcome(a).unwrap();
    assert!(commits[0].is_picked);
    assert!(!commits[1].is_picked);
}

#[test]
fn reverse_order_of_picks() {
    let (mut s, _) = ReplaySession::start(
        "main".to_string(),
        strs(&["x", "fix"]),
        vec![commit("h1", "fix 1"), commit("h2", "nothing"), commit("h3", "fix 3")],
    );
    s.resume(Ok("main".to_string()));
    let a = s.resume(Ok("base000".to_string()));
    assert_eq!(a, ReplayAction::CherryPick(2));
    let a = s.resume(Ok(String::new()));
    assert_eq!(a, ReplayAction::CherryPick(0));
    let a = s.resume(Ok(String::new()));
    assert_eq!(a, ReplayAction::Completed);
    let picked: Vec<bool> = s.commits().iter().map(|c| c.is_picked).collect();
    assert_eq!(picked, vec![true, false, true]);
}

#[test]
fn failed_pick_aborts_then_resets_to_checkpoint() {
    let (mut s, _) = ReplaySession::start(
        "main".to_string(),
        strs(&["fix"]),
        vec![commit("h1", "[T-1] fix a"), commit("h2", "[T-3] feat b")],
    );
    s.resume(Ok("main".to_string()));
    let a = s.resume(Ok("c0ffee0".to_string()));
    assert_eq!(a, ReplayAction::CherryPick(0));
    let a = s.resume(Err("conflict".to_string()));
    assert_eq!(a, ReplayAction::AbortCherryPick);
    assert_eq!(args(&s, a), strs(&["cherry-pick", "--abort"]));
    let a = s.resume(Ok(String::new()));
    assert_eq!(a, ReplayAction::ResetToCheckpoint);
    assert_eq!(args(&s, a), strs(&["reset", "--hard", "c0ffee0"]));
    let a = s.resume(Ok(String::new()));
    assert_eq!(a, ReplayAction::ReplayFailed(0));
    assert!(s.is_finished());
    match s.outcome(a) {
        Err(GinspError::ReplayFailed { hash, message }) => {
            assert_eq!(hash, "h1");
            assert_eq!(message, "[T-1] fix a");
        }
        _ => panic!("expected a failed replay"),
    }
}

#[test]
fn failed_abort_is_fatal_without_reset() {
    let (mut s, _) = ReplaySession::start("main".to_string(), strs(&["fix"]), vec![commit("h1", "fix")]);
    s.resume(Ok("main".to_string()));
    s.resume(Ok("c0ffee0".to_string()));
    assert_eq!(s.resume(Err("conflict".to_string())), ReplayAction::AbortCherryPick);
    let a = s.resume(Err("no cherry-pick in progress".to_string()));
    assert_eq!(a, ReplayAction::RollbackFailed);
    assert!(s.command(a).is_none());
    assert!(matches!(s.outcome(a), Err(GinspError::RollbackFailed { ref detail }) if detail == "no cherry-pick in progress"));
}

#[test]
fn failed_reset_is_fatal() {
    let (mut s, _) = ReplaySession::start("main".to_string(), strs(&["fix"]), vec![commit("h1", "fix")]);
    s.resume(Ok("main".to_string()));
    s.resume(Ok("c0ffee0".to_string()));
    s.resume(Err("conflict".to_string()));
    s.resume(Ok(String::new()));
    let a = s.resume(Err("cannot reset".to_string()));
    assert_eq!(a, ReplayAction::RollbackFailed);
    assert!(matches!(s.outcome(a), Err(GinspError::RollbackFailed { .. })));
}

#[test]
fn wrong_branch_stops_before_any_change() {
    let (mut s, _) = ReplaySession::start("main".to_string(), strs(&["fix"]), vec![commit("h1", "fix")]);
    let a = s.resume(Ok("feature\n".to_string()));
    assert_eq!(a, ReplayAction::WrongBranch);
    match s.outcome(a) {
        Err(GinspError::WrongBranchCheckedOut { expected, actual }) => {
            assert_eq!(expected, "main");
            assert_eq!(actual, "feature");
        }
        _ => panic!("expected the wrong branch"),
    }
}

#[test]
fn unreadable_head_is_log_unavailable() {
    let (mut s, _) = ReplaySession::start("main".to_string(), strs(&["fix"]), vec![commit("h1", "fix")]);
    s.resume(Ok("main".to_string()));
    let a = s.resume(Err("fatal".to_string()));
    assert_eq!(a, ReplayAction::LogUnavailable);
    assert!(matches!(s.outcome(a), Err(GinspError::LogUnavailable { .. })));
}

#[test]
fn nothing_eligible_needs_no_checkpoint() {
    let (mut s, _) = ReplaySession::start("main".to_string(), strs(&["fix"]), vec![commit("h1", "feat")]);
    let a = s.resume(Ok("main".to_string()));
    assert_eq!(a, ReplayAction::Completed);
    assert!(!s.outcome(a).unwrap()[0].is_picked);
}
