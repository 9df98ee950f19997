//! Guarded replay of source-only commits onto the checked-out target branch.
//!
//! A `ReplaySession` decides; its caller acts. Each step yields a
//! `ReplayAction`: either a `git` command to run, whose outcome the caller hands
//! back to `resume`, or a final verdict. The branch head is recorded before the
//! first cherry-pick, and a failed cherry-pick is followed by an abort and a
//! hard reset to that checkpoint.

use vstd::prelude::*;
use vstd::string::*;
use crate::error::GinspError;
use crate::git::{
    Git, GitCommand, cherry_pick_args, cherry_pick_abort_args, reset_hard_args,
    current_branch_args, head_hash_args,
};
use crate::reconcile::{CommitInfo, info_views};
use crate::text::{occurs_in, texts, text_contains, trim_text, trimmed};

verus! {

/// Where a replay stands.
#[derive(Clone, Copy, PartialEq, Eq, Structural, Debug)]
pub enum Phase {
    /// Waiting for the name of the checked-out branch.
    CheckBranch,
    /// Waiting for the head hash to keep as checkpoint.
    TakeCheckpoint,
    /// Waiting for the outcome of a cherry-pick.
    Picking,
    /// Waiting for the outcome of `cherry-pick --abort`.
    Aborting,
    /// Waiting for the outcome of the hard reset to the checkpoint.
    Resetting,
    /// Nothing more to run.
    Finished,
}

/// What the caller is to do next.
#[derive(Clone, Copy, PartialEq, Eq, Structural, Debug)]
pub enum ReplayAction {
    /// Run `git rev-parse --abbrev-ref HEAD`.
    ReadCurrentBranch,
    /// Run `git log -1 --pretty=%h`.
    ReadHead,
    /// Cherry-pick the commit at this position of the session's commits.
    CherryPick(usize),
    /// Run `git cherry-pick --abort`.
    AbortCherryPick,
    /// Run `git reset --hard` to the checkpoint.
    ResetToCheckpoint,
    /// Done: every eligible commit landed.
    Completed,
    /// Done: the checked-out branch is not the target.
    WrongBranch,
    /// Done: the branch name or the head could not be read.
    LogUnavailable,
    /// Done: the commit at this position failed and the branch was restored.
    ReplayFailed(usize),
    /// Done: the abort or the reset failed.
    RollbackFailed,
}

/// The commit view: (hash, message, status, replayed).
pub type CommitModel = (Seq<char>, Seq<char>, Option<Seq<char>>, bool);

/// The state of a session.
pub struct ReplayModel {
    pub phase: Phase,
    pub target: Seq<char>,
    pub patterns: Seq<Seq<char>>,
    pub commits: Seq<CommitModel>,
    pub checkpoint: Seq<char>,
    /// Commits at positions below this one are still to be considered, from the highest down.
    pub pending: int,
    /// The commit being replayed.
    pub current: int,
    /// The text of the last failure, or the branch name found.
    pub detail: Seq<char>,
}

/// Some pattern occurs in the message.
pub open spec fn eligible(message: Seq<char>, patterns: Seq<Seq<char>>) -> bool {
    exists|j: int| 0 <= j < patterns.len() && occurs_in(message, #[trigger] patterns[j])
}

/// The highest position below `pending` whose commit is eligible.
pub open spec fn next_candidate(commits: Seq<CommitModel>, patterns: Seq<Seq<char>>, pending: int) -> Option<int>
    decreases pending,
{
    if pending <= 0 {
        None
    } else if eligible(commits[pending - 1].1, patterns) {
        Some(pending - 1)
    } else {
        next_candidate(commits, patterns, pending - 1)
    }
}

proof fn lemma_candidate_below(commits: Seq<CommitModel>, patterns: Seq<Seq<char>>, pending: int)
    ensures
        next_candidate(commits, patterns, pending) matches Some(i) ==> 0 <= i < pending,
    decreases pending,
{
    if pending > 0 {
        lemma_candidate_below(commits, patterns, pending - 1);
    }
}

/// The positions are consistent with the commits.
pub open spec fn model_wf(s: ReplayModel) -> bool {
    &&& 0 <= s.pending <= s.commits.len()
    &&& (s.phase == Phase::Picking || s.phase == Phase::Aborting || s.phase == Phase::Resetting)
        ==> 0 <= s.current < s.commits.len()
}

/// Moves to the next eligible commit, or finishes when none is left.
pub open spec fn select(s: ReplayModel) -> (ReplayModel, ReplayAction) {
    match next_candidate(s.commits, s.patterns, s.pending) {
        Some(i) => (ReplayModel { phase: Phase::Picking, current: i, pending: i, ..s }, ReplayAction::CherryPick(i as usize)),
        None => (ReplayModel { phase: Phase::Finished, pending: 0, ..s }, ReplayAction::Completed),
    }
}

/// Ends the session with a verdict and the text that explains it.
pub open spec fn finish(s: ReplayModel, a: ReplayAction, detail: Seq<char>) -> (ReplayModel, ReplayAction) {
    (ReplayModel { phase: Phase::Finished, detail: detail, ..s }, a)
}

/// The commits with the one at `i` marked as replayed.
pub open spec fn mark_picked(cs: Seq<CommitModel>, i: int) -> Seq<CommitModel> {
    cs.update(i, (cs[i].0, cs[i].1, cs[i].2, true))
}

/// The first step of a session: with no pattern there is nothing to do.
pub open spec fn start_model(s: ReplayModel) -> (ReplayModel, ReplayAction) {
    if s.patterns.len() == 0 {
        (ReplayModel { phase: Phase::Finished, pending: 0, ..s }, ReplayAction::Completed)
    } else {
        (s, ReplayAction::ReadCurrentBranch)
    }
}

/// The step taken when the caller reports the outcome `e` of the last command.
pub open spec fn transition(s: ReplayModel, e: Result<Seq<char>, Seq<char>>) -> (ReplayModel, ReplayAction) {
    match s.phase {
        Phase::CheckBranch => match e {
            Ok(out) => if trimmed(out) != s.target {
                finish(s, ReplayAction::WrongBranch, trimmed(out))
            } else if next_candidate(s.commits, s.patterns, s.pending) is None {
                select(s)
            } else {
                (ReplayModel { phase: Phase::TakeCheckpoint, ..s }, ReplayAction::ReadHead)
            },
            Err(err) => finish(s, ReplayAction::LogUnavailable, err),
        },
        Phase::TakeCheckpoint => match e {
            Ok(out) => select(ReplayModel { checkpoint: trimmed(out), ..s }),
            Err(err) => finish(s, ReplayAction::LogUnavailable, err),
        },
        Phase::Picking => match e {
            Ok(_) => select(ReplayModel { commits: mark_picked(s.commits, s.current), ..s }),
            Err(err) => (ReplayModel { phase: Phase::Aborting, detail: err, ..s }, ReplayAction::AbortCherryPick),
        },
        Phase::Aborting => match e {
            Ok(_) => (ReplayModel { phase: Phase::Resetting, ..s }, ReplayAction::ResetToCheckpoint),
            Err(err) => finish(s, ReplayAction::RollbackFailed, err),
        },
        Phase::Resetting => match e {
            Ok(_) => finish(s, ReplayAction::ReplayFailed(s.current as usize), s.detail),
            Err(err) => finish(s, ReplayAction::RollbackFailed, err),
        },
        Phase::Finished => (s, ReplayAction::Completed),
    }
}

/// The arguments of the command that an action asks for, if it asks for one.
pub open spec fn action_command(s: ReplayModel, a: ReplayAction) -> Option<Seq<Seq<char>>> {
    match a {
        ReplayAction::ReadCurrentBranch => Some(current_branch_args()),
        ReplayAction::ReadHead => Some(head_hash_args()),
        ReplayAction::CherryPick(i) => Some(cherry_pick_args(s.commits[i as int].0)),
        ReplayAction::AbortCherryPick => Some(cherry_pick_abort_args()),
        ReplayAction::ResetToCheckpoint => Some(reset_hard_args(s.checkpoint)),
        _ => None,
    }
}

/// The action ends the session.
pub open spec fn is_verdict(a: ReplayAction) -> bool {
    match a {
        ReplayAction::Completed | ReplayAction::WrongBranch | ReplayAction::LogUnavailable
        | ReplayAction::ReplayFailed(_) | ReplayAction::RollbackFailed => true,
        _ => false,
    }
}

/// The view of a command outcome: standard output, or error text.
pub open spec fn outcome_view(e: Result<String, String>) -> Result<Seq<char>, Seq<char>> {
    match e {
        Ok(s) => Ok(s@),
        Err(s) => Err(s@),
    }
}

/// A replay of the eligible source-only commits onto the target branch.
pub struct ReplaySession {
    target: String,
    patterns: Vec<String>,
    commits: Vec<CommitInfo>,
    checkpoint: String,
    pending: usize,
    current: usize,
    phase: Phase,
    detail: String,
}

impl View for ReplaySession {
    type V = ReplayModel;

    closed spec fn view(&self) -> ReplayModel {
        ReplayModel {
            phase: self.phase,
            target: self.target@,
            patterns: texts(self.patterns@),
            commits: info_views(self.commits@),
            checkpoint: self.checkpoint@,
            pending: self.pending as int,
            current: self.current as int,
            detail: self.detail@,
        }
    }
}

/// Whether some pattern occurs in the message.
pub fn matches_any(message: &str, patterns: &Vec<String>) -> (r: bool)
    ensures
        r == eligible(message@, texts(patterns@)),
{
    let mut j: usize = 0;
    while j < patterns.len()
        invariant
            j <= patterns.len(),
            forall|k: int| 0 <= k < j ==> !occurs_in(message@, #[trigger] texts(patterns@)[k]),
        decreases patterns.len() - j,
    {
        if text_contains(message, patterns[j].as_str()) {
            assert(occurs_in(message@, texts(patterns@)[j as int]));
            return true;
        }
        j = j + 1;
    }
    false
}

impl ReplaySession {
    /// The session's state is consistent.
    pub open spec fn wf(&self) -> bool {
        model_wf(self@)
    }

    /// Opens a replay of `commits` (unique to the source, newest first) onto
    /// `target`, for the commits whose message holds one of `patterns`, and
    /// gives the first action. With no pattern the session is over at once and
    /// nothing is replayed.
    pub fn start(target: String, patterns: Vec<String>, commits: Vec<CommitInfo>) -> (r: (ReplaySession, ReplayAction))
        ensures
            r.0.wf(),
            ({
                let s0 = ReplayModel {
                    phase: Phase::CheckBranch,
                    target: target@,
                    patterns: texts(patterns@),
                    commits: info_views(commits@),
                    checkpoint: Seq::empty(),
                    pending: commits@.len() as int,
                    current: 0,
                    detail: Seq::empty(),
                };
                (r.0@, r.1) == start_model(s0)
            }),
            patterns@.len() == 0 ==> r.1 == ReplayAction::Completed && r.0@.commits == info_views(commits@),
    {
        let n = commits.len();
        let mut s = ReplaySession {
            target,
            patterns,
            commits,
            checkpoint: String::new(),
            pending: n,
            current: 0,
            phase: Phase::CheckBranch,
            detail: String::new(),
        };
        if s.patterns.len() == 0 {
            s.phase = Phase::Finished;
            s.pending = 0;
            (s, ReplayAction::Completed)
        } else {
            (s, ReplayAction::ReadCurrentBranch)
        }
    }

    /// Whether the session is over.
    pub fn is_finished(&self) -> (r: bool)
        ensures
            r == (self@.phase == Phase::Finished),
    {
        self.phase == Phase::Finished
    }

    /// The commits, with the replayed ones marked.
    pub fn commits(&self) -> (r: &Vec<CommitInfo>)
        ensures
            info_views(r@) == self@.commits,
    {
        &self.commits
    }

    /// The checkpoint hash (empty before it is taken).
    pub fn checkpoint(&self) -> (r: &String)
        ensures
            r@ == self@.checkpoint,
    {
        &self.checkpoint
    }

    /// The highest position below `pending` whose commit is eligible.
    fn find_candidate(&self, pending: usize) -> (r: Option<usize>)
        requires
            pending <= self@.commits.len(),
        ensures
            match r {
                Some(i) => next_candidate(self@.commits, self@.patterns, pending as int) == Some(i as int),
                None => next_candidate(self@.commits, self@.patterns, pending as int) is None,
            },
    {
        let mut p = pending;
        while p > 0
            invariant
                p <= pending <= self@.commits.len(),
                next_candidate(self@.commits, self@.patterns, p as int) == next_candidate(
                    self@.commits,
                    self@.patterns,
                    pending as int,
                ),
            decreases p,
        {
            proof {
                assert(self@.commits[p - 1].1 == self.commits@[p - 1].message@);
            }
            if matches_any(self.commits[p - 1].message.as_str(), &self.patterns) {
                return Some(p - 1);
            }
            p = p - 1;
        }
        None
    }

    fn select(&mut self) -> (a: ReplayAction)
        requires
            old(self).wf(),
        ensures
            final(self).wf(),
            (final(self)@, a) == select(old(self)@),
    {
        proof {
            lemma_candidate_below(self@.commits, self@.patterns, self@.pending);
        }
        match self.find_candidate(self.pending) {
            Some(i) => {
                self.current = i;
                self.pending = i;
                self.phase = Phase::Picking;
                ReplayAction::CherryPick(i)
            },
            None => {
                self.pending = 0;
                self.phase = Phase::Finished;
                ReplayAction::Completed
            },
        }
    }

    fn finish(&mut self, a: ReplayAction, detail: String) -> (r: ReplayAction)
        requires
            old(self).wf(),
        ensures
            final(self).wf(),
            (final(self)@, r) == finish(old(self)@, a, detail@),
    {
        self.phase = Phase::Finished;
        self.detail = detail;
        a
    }

    /// Takes the outcome of the command that the last action asked for and
    /// gives the next action.
    pub fn resume(&mut self, outcome: Result<String, String>) -> (a: ReplayAction)
        requires
            old(self).wf(),
            old(self)@.phase != Phase::Finished,
        ensures
            final(self).wf(),
            (final(self)@, a) == transition(old(self)@, outcome_view(outcome)),
    {
        match self.phase {
            Phase::CheckBranch => match outcome {
                Ok(out) => {
                    let name = trim_text(out.as_str());
                    if name != self.target {
                        self.finish(ReplayAction::WrongBranch, name)
                    } else {
                        if self.find_candidate(self.pending).is_none() {
                            self.select()
                        } else {
                            self.phase = Phase::TakeCheckpoint;
                            ReplayAction::ReadHead
                        }
                    }
                },
                Err(err) => self.finish(ReplayAction::LogUnavailable, err),
            },
            Phase::TakeCheckpoint => match outcome {
                Ok(out) => {
                    self.checkpoint = trim_text(out.as_str());
                    self.select()
                },
                Err(err) => self.finish(ReplayAction::LogUnavailable, err),
            },
            Phase::Picking => match outcome {
                Ok(_) => {
                    let i = self.current;
                    let ghost before = self.commits@;
                    self.commits[i].is_picked = true;
                    proof {
                        assert(info_views(self.commits@) =~= mark_picked(info_views(before), i as int));
                    }
                    self.select()
                },
                Err(err) => {
                    self.phase = Phase::Aborting;
                    self.detail = err;
                    ReplayAction::AbortCherryPick
                },
            },
            Phase::Aborting => match outcome {
                Ok(_) => {
                    self.phase = Phase::Resetting;
                    ReplayAction::ResetToCheckpoint
                },
                Err(err) => self.finish(ReplayAction::RollbackFailed, err),
            },
            Phase::Resetting => match outcome {
                Ok(_) => {
                    let d = self.detail.clone();
                    self.finish(ReplayAction::ReplayFailed(self.current), d)
                },
                Err(err) => self.finish(ReplayAction::RollbackFailed, err),
            },
            Phase::Finished => ReplayAction::Completed,
        }
    }

    /// The command that `a` asks the caller to run, if any.
    pub fn command(&self, a: ReplayAction) -> (r: Option<GitCommand>)
        requires
            self.wf(),
            a matches ReplayAction::CherryPick(i) ==> i < self@.commits.len(),
        ensures
            match r {
                Some(c) => action_command(self@, a) == Some(c@),
                None => action_command(self@, a) is None,
            },
    {
        match a {
            ReplayAction::ReadCurrentBranch => Some(Git::get_current_branch()),
            ReplayAction::ReadHead => Some(Git::get_last_commit_hash()),
            ReplayAction::CherryPick(i) => Some(Git::cherry_pick(&self.commits[i].hash)),
            ReplayAction::AbortCherryPick => Some(Git::cherry_pick_abort()),
            ReplayAction::ResetToCheckpoint => Some(Git::reset_hard(&self.checkpoint)),
            _ => None,
        }
    }
}


impl ReplaySession {
    /// The result of a session that ended with verdict `a`: the commits with
    /// their replay marks when it completed, or the error that stopped it.
    pub fn outcome(self, a: ReplayAction) -> (r: Result<Vec<CommitInfo>, GinspError>)
        requires
            self.wf(),
            is_verdict(a),
            a matches ReplayAction::ReplayFailed(i) ==> i < self@.commits.len(),
        ensures
            a == ReplayAction::Completed ==> (r matches Ok(cs) && info_views(cs@) == self@.commits),
            a == ReplayAction::WrongBranch ==> (r matches Err(GinspError::WrongBranchCheckedOut { expected, actual })
                && expected@ == self@.target && actual@ == self@.detail),
            a == ReplayAction::LogUnavailable ==> (r matches Err(GinspError::LogUnavailable { branch, detail })
                && branch@ == self@.target && detail@ == self@.detail),
            a == ReplayAction::RollbackFailed ==> (r matches Err(GinspError::RollbackFailed { detail })
                && detail@ == self@.detail),
            a matches ReplayAction::ReplayFailed(i) ==> (r matches Err(GinspError::ReplayFailed { hash, message })
                && hash@ == self@.commits[i as int].0 && message@ == self@.commits[i as int].1),
    {
        match a {
            ReplayAction::WrongBranch => Err(GinspError::WrongBranchCheckedOut { expected: self.target, actual: self.detail }),
            ReplayAction::LogUnavailable => Err(GinspError::LogUnavailable { branch: self.target, detail: self.detail }),
            ReplayAction::RollbackFailed => Err(GinspError::RollbackFailed { detail: self.detail }),
            ReplayAction::ReplayFailed(i) => Err(GinspError::ReplayFailed {
                hash: self.commits[i].hash.clone(),
                message: self.commits[i].message.clone(),
            }),
            _ => Ok(self.commits),
        }
    }
}

/// The steps that a session in state `s` takes on the command outcomes
/// `events`, until it is over: each is the state after the step and the action
/// it gave.
pub open spec fn run(s: ReplayModel, events: Seq<Result<Seq<char>, Seq<char>>>) -> Seq<(ReplayModel, ReplayAction)>
    decreases events.len(),
{
    if events.len() == 0 || s.phase == Phase::Finished {
        Seq::empty()
    } else {
        let step = transition(s, events[0]);
        seq![step] + run(step.0, events.subrange(1, events.len() as int))
    }
}

/// A failed cherry-pick is followed by exactly one abort and then exactly one
/// hard reset to the checkpoint; the session then ends reporting that commit
/// as failed, so nothing it replayed stays on the branch.
pub proof fn lemma_failed_pick_rolls_back(
    s: ReplayModel,
    err: Seq<char>,
    abort_out: Seq<char>,
    reset_out: Seq<char>,
)
    requires
        model_wf(s),
        s.phase == Phase::Picking,
    ensures
        ({
            let (s1, a1) = transition(s, Err(err));
            let (s2, a2) = transition(s1, Ok(abort_out));
            let (s3, a3) = transition(s2, Ok(reset_out));
            &&& a1 == ReplayAction::AbortCherryPick
            &&& action_command(s1, a1) == Some(cherry_pick_abort_args())
            &&& a2 == ReplayAction::ResetToCheckpoint
            &&& action_command(s2, a2) == Some(reset_hard_args(s.checkpoint))
            &&& a3 == ReplayAction::ReplayFailed(s.current as usize)
            &&& s3.phase == Phase::Finished
            &&& s3.commits == s.commits
        }),
{
}

/// When the abort of a failed cherry-pick fails, the session ends at once
/// reporting a failed rollback, without a reset.
pub proof fn lemma_failed_abort_stops(s: ReplayModel, err: Seq<char>, abort_err: Seq<char>)
    requires
        model_wf(s),
        s.phase == Phase::Picking,
    ensures
        ({
            let (s1, a1) = transition(s, Err(err));
            let (s2, a2) = transition(s1, Err(abort_err));
            &&& a1 == ReplayAction::AbortCherryPick
            &&& a2 == ReplayAction::RollbackFailed
            &&& s2.phase == Phase::Finished
            &&& s2.detail == abort_err
        }),
{
}

/// A cherry-pick is asked for only once the checkpoint is being taken or
/// already taken.
pub proof fn lemma_pick_follows_checkpoint(s: ReplayModel, e: Result<Seq<char>, Seq<char>>)
    ensures
        transition(s, e).1 is CherryPick ==> s.phase == Phase::TakeCheckpoint || s.phase == Phase::Picking,
        s.phase == Phase::TakeCheckpoint && e is Ok ==> transition(s, e).0.checkpoint == trimmed(e->Ok_0),
{
}

/// Once replay is under way the checkpoint never changes: every later state,
/// and so every reset, uses the one taken before the first cherry-pick.
pub proof fn lemma_checkpoint_kept(s: ReplayModel, events: Seq<Result<Seq<char>, Seq<char>>>)
    requires
        s.phase == Phase::Picking || s.phase == Phase::Aborting || s.phase == Phase::Resetting
            || s.phase == Phase::Finished,
    ensures
        forall|k: int| 0 <= k < run(s, events).len() ==> (#[trigger] run(s, events)[k]).0.checkpoint == s.checkpoint,
        forall|k: int| 0 <= k < run(s, events).len() && (#[trigger] run(s, events)[k]).1 == ReplayAction::ResetToCheckpoint
            ==> action_command(run(s, events)[k].0, run(s, events)[k].1) == Some(reset_hard_args(s.checkpoint)),
    decreases events.len(),
{
    if events.len() > 0 && s.phase != Phase::Finished {
        let step = transition(s, events[0]);
        let rest = events.subrange(1, events.len() as int);
        lemma_checkpoint_kept(step.0, rest);
        assert forall|k: int| 0 <= k < run(s, events).len() implies (#[trigger] run(s, events)[k]).0.checkpoint == s.checkpoint by {
            if k > 0 {
                assert(run(s, events)[k] == run(step.0, rest)[k - 1]);
            }
        }
    }
}

} // verus!
