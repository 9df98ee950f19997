//! Commits that one branch holds and the other does not, compared by message.

use vstd::prelude::*;
use crate::commit_index::{
    CommitIndex, has_key, index_of_lines, all_parse, reports_malformed, load_commits_as_map,
};
use crate::error::GinspError;
use crate::text::texts;

verus! {

/// A commit as (hash, message).
pub struct RawCommitInfo(pub String, pub String);

impl View for RawCommitInfo {
    type V = (Seq<char>, Seq<char>);

    open spec fn view(&self) -> (Seq<char>, Seq<char>) {
        (self.0@, self.1@)
    }
}

/// A reported commit: hash, message, ticket status if one was fetched, and
/// whether it was replayed onto the target branch.
pub struct CommitInfo {
    pub hash: String,
    pub message: String,
    pub status: Option<String>,
    pub is_picked: bool,
}

/// The view of an optional text.
pub open spec fn opt_text(o: Option<String>) -> Option<Seq<char>> {
    match o {
        Some(s) => Some(s@),
        None => None,
    }
}

impl View for CommitInfo {
    type V = (Seq<char>, Seq<char>, Option<Seq<char>>, bool);

    open spec fn view(&self) -> (Seq<char>, Seq<char>, Option<Seq<char>>, bool) {
        (self.hash@, self.message@, opt_text(self.status), self.is_picked)
    }
}

/// The views of a sequence of raw commits.
pub open spec fn raw_views(v: Seq<RawCommitInfo>) -> Seq<(Seq<char>, Seq<char>)> {
    v.map_values(|c: RawCommitInfo| c@)
}

/// The views of a sequence of reported commits.
pub open spec fn info_views(v: Seq<CommitInfo>) -> Seq<(Seq<char>, Seq<char>, Option<Seq<char>>, bool)> {
    v.map_values(|c: CommitInfo| c@)
}

/// Reported commits for (hash, message) pairs, with no status and not replayed.
pub open spec fn fresh_infos(u: Seq<(Seq<char>, Seq<char>)>) -> Seq<(Seq<char>, Seq<char>, Option<Seq<char>>, bool)> {
    u.map_values(|p: (Seq<char>, Seq<char>)| (p.0, p.1, None::<Seq<char>>, false))
}

/// The (hash, message) of each entry of `from` whose message `to` lacks, in the
/// order of `from`.
pub open spec fn unique_to(
    from: Seq<(Seq<char>, Seq<char>)>,
    to: Seq<(Seq<char>, Seq<char>)>,
) -> Seq<(Seq<char>, Seq<char>)>
    decreases from.len(),
{
    if from.len() == 0 {
        Seq::empty()
    } else {
        let rest = unique_to(from.drop_last(), to);
        let e = from.last();
        if has_key(to, e.0) {
            rest
        } else {
            rest.push((e.1, e.0))
        }
    }
}

/// Some (hash, message) pair of `u` has message `m`.
pub open spec fn lists_message(u: Seq<(Seq<char>, Seq<char>)>, m: Seq<char>) -> bool {
    exists|i: int| 0 <= i < u.len() && #[trigger] u[i].1 == m
}

impl CommitInfo {
    /// A reported commit for a raw one, with no status and not replayed.
    pub fn from(raw: &RawCommitInfo) -> (r: CommitInfo)
        ensures
            r@ == (raw.0@, raw.1@, None::<Seq<char>>, false),
    {
        CommitInfo { hash: raw.0.clone(), message: raw.1.clone(), status: None, is_picked: false }
    }
}

/// The commits of `from` whose message `to` does not hold, in `from`'s order.
pub fn unique_by_message(from: &CommitIndex, to: &CommitIndex) -> (r: Vec<RawCommitInfo>)
    ensures
        raw_views(r@) == unique_to(from@, to@),
{
    let mut out: Vec<RawCommitInfo> = Vec::new();
    let n = from.len();
    let mut i: usize = 0;
    while i < n
        invariant
            n == from@.len(),
            i <= n,
            raw_views(out@) == unique_to(from@.take(i as int), to@),
        decreases n - i,
    {
        let (message, hash) = from.entry(i);
        proof {
            assert(from@.take(i as int + 1).drop_last() =~= from@.take(i as int));
        }
        if !to.contains_message(message.as_str()) {
            let ghost before = out@;
            out.push(RawCommitInfo(hash, message));
            proof {
                assert(raw_views(out@) =~= raw_views(before).push((from@[i as int].1, from@[i as int].0)));
            }
        }
        i = i + 1;
    }
    proof {
        assert(from@.take(n as int) =~= from@);
    }
    out
}

/// Reported commits for raw ones, in the same order.
pub fn to_commit_infos(raws: &Vec<RawCommitInfo>) -> (r: Vec<CommitInfo>)
    ensures
        info_views(r@) == fresh_infos(raw_views(raws@)),
{
    let mut out: Vec<CommitInfo> = Vec::new();
    let mut i: usize = 0;
    while i < raws.len()
        invariant
            i <= raws.len(),
            info_views(out@) == fresh_infos(raw_views(raws@)).take(i as int),
        decreases raws.len() - i,
    {
        let ghost before = out@;
        let c = CommitInfo::from(&raws[i]);
        proof {
            assert(c@ == fresh_infos(raw_views(raws@))[i as int]);
        }
        out.push(c);
        proof {
            assert(info_views(out@) =~= info_views(before).push(c@));
            assert(info_views(out@) =~= fresh_infos(raw_views(raws@)).take(i as int + 1));
        }
        i = i + 1;
    }
    proof {
        assert(fresh_infos(raw_views(raws@)).take(raws.len() as int) =~= fresh_infos(raw_views(raws@)));
    }
    out
}

/// The commits unique to each of two branches.
pub struct DiffResult {
    pub source_branch: String,
    pub unique_to_source: Vec<CommitInfo>,
    pub target_branch: String,
    pub unique_to_target: Vec<CommitInfo>,
}

/// Builds both indices from the branches' history lines and reports the commits
/// unique to each side, each in its branch's order.
pub fn command_diff(
    source_branch: &str,
    source_lines: &Vec<String>,
    target_branch: &str,
    target_lines: &Vec<String>,
) -> (r: Result<DiffResult, GinspError>)
    ensures
        r is Ok <==> all_parse(texts(source_lines@)) && all_parse(texts(target_lines@)),
        r matches Ok(d) ==> {
            let s = index_of_lines(texts(source_lines@));
            let t = index_of_lines(texts(target_lines@));
            &&& d.source_branch@ == source_branch@
            &&& d.target_branch@ == target_branch@
            &&& info_views(d.unique_to_source@) == fresh_infos(unique_to(s, t))
            &&& info_views(d.unique_to_target@) == fresh_infos(unique_to(t, s))
        },
        r matches Err(e) ==> if !all_parse(texts(source_lines@)) {
            reports_malformed(e, source_branch@, source_lines@)
        } else {
            reports_malformed(e, target_branch@, target_lines@)
        },
{
    let source_map = match load_commits_as_map(source_branch, source_lines) {
        Ok(m) => m,
        Err(e) => return Err(e),
    };
    let target_map = match load_commits_as_map(target_branch, target_lines) {
        Ok(m) => m,
        Err(e) => return Err(e),
    };
    let unique_to_source = unique_by_message(&source_map, &target_map);
    let unique_to_target = unique_by_message(&target_map, &source_map);
    Ok(DiffResult {
        source_branch: String::from_str(source_branch),
        unique_to_source: to_commit_infos(&unique_to_source),
        target_branch: String::from_str(target_branch),
        unique_to_target: to_commit_infos(&unique_to_target),
    })
}

proof fn lemma_has_key_push(a: Seq<(Seq<char>, Seq<char>)>, e: (Seq<char>, Seq<char>), m: Seq<char>)
    ensures
        has_key(a.push(e), m) <==> (has_key(a, m) || e.0 == m),
{
    let p = a.push(e);
    if has_key(p, m) {
        let i = choose|i: int| 0 <= i < p.len() && #[trigger] p[i].0 == m;
        if i < a.len() {
            assert(a[i].0 == m);
        }
    }
    if has_key(a, m) {
        let i = choose|i: int| 0 <= i < a.len() && #[trigger] a[i].0 == m;
        assert(p[i].0 == m);
    }
    if e.0 == m {
        assert(p[a.len() as int].0 == m);
    }
}

proof fn lemma_lists_push(u: Seq<(Seq<char>, Seq<char>)>, x: (Seq<char>, Seq<char>), m: Seq<char>)
    ensures
        lists_message(u.push(x), m) <==> (lists_message(u, m) || x.1 == m),
{
    let p = u.push(x);
    if lists_message(p, m) {
        let i = choose|i: int| 0 <= i < p.len() && #[trigger] p[i].1 == m;
        if i < u.len() {
            assert(u[i].1 == m);
        }
    }
    if lists_message(u, m) {
        let i = choose|i: int| 0 <= i < u.len() && #[trigger] u[i].1 == m;
        assert(p[i].1 == m);
    }
    if x.1 == m {
        assert(p[u.len() as int].1 == m);
    }
}

proof fn lemma_unique_members(a: Seq<(Seq<char>, Seq<char>)>, b: Seq<(Seq<char>, Seq<char>)>, m: Seq<char>)
    ensures
        lists_message(unique_to(a, b), m) <==> (has_key(a, m) && !has_key(b, m)),
    decreases a.len(),
{
    if a.len() == 0 {
        if has_key(a, m) {
            let i = choose|i: int| 0 <= i < a.len() && #[trigger] a[i].0 == m;
        }
    } else {
        let a0 = a.drop_last();
        let e = a.last();
        lemma_unique_members(a0, b, m);
        assert(a =~= a0.push(e));
        lemma_has_key_push(a0, e, m);
        if !has_key(b, e.0) {
            lemma_lists_push(unique_to(a0, b), (e.1, e.0), m);
        }
    }
}

/// A message is reported as unique to `a` exactly when `a` holds it and `b` does
/// not; so the unique messages share none with `b`, and with the messages common
/// to both they make up all of `a`'s messages.
pub proof fn lemma_unique_partition(a: CommitIndex, b: CommitIndex)
    ensures
        forall|m: Seq<char>| #[trigger] lists_message(unique_to(a@, b@), m) ==> !has_key(b@, m),
        forall|m: Seq<char>| #[trigger] has_key(a@, m) <==> (lists_message(unique_to(a@, b@), m)
            || (has_key(a@, m) && has_key(b@, m))),
{
    assert forall|m: Seq<char>| #[trigger] lists_message(unique_to(a@, b@), m) implies !has_key(b@, m) by {
        lemma_unique_members(a@, b@, m);
    }
    assert forall|m: Seq<char>| #[trigger] has_key(a@, m) <==> (lists_message(unique_to(a@, b@), m)
        || (has_key(a@, m) && has_key(b@, m))) by {
        lemma_unique_members(a@, b@, m);
    }
}

/// Reconciling equal indices gives equal results.
pub proof fn lemma_unique_deterministic(a1: CommitIndex, b1: CommitIndex, a2: CommitIndex, b2: CommitIndex)
    requires
        a1@ == a2@,
        b1@ == b2@,
    ensures
        unique_to(a1@, b1@) == unique_to(a2@, b2@),
{
}

/// The two branches hold no message in common.
pub open spec fn disjoint(a: Seq<(Seq<char>, Seq<char>)>, b: Seq<(Seq<char>, Seq<char>)>) -> bool {
    forall|m: Seq<char>| has_key(a, m) ==> !has_key(b, m)
}

proof fn lemma_unique_all(a: Seq<(Seq<char>, Seq<char>)>, b: Seq<(Seq<char>, Seq<char>)>)
    requires
        disjoint(a, b),
    ensures
        unique_to(a, b) == a.map_values(|e: (Seq<char>, Seq<char>)| (e.1, e.0)),
    decreases a.len(),
{
    if a.len() > 0 {
        let a0 = a.drop_last();
        let e = a.last();
        assert(a =~= a0.push(e));
        assert forall|m: Seq<char>| has_key(a0, m) implies !has_key(b, m) by {
            lemma_has_key_push(a0, e, m);
        }
        lemma_unique_all(a0, b);
        lemma_has_key_push(a0, e, e.0);
        assert(a.map_values(|e: (Seq<char>, Seq<char>)| (e.1, e.0)) =~= a0.map_values(
            |e: (Seq<char>, Seq<char>)| (e.1, e.0),
        ).push((e.1, e.0)));
    } else {
        assert(a.map_values(|e: (Seq<char>, Seq<char>)| (e.1, e.0)) =~= Seq::empty());
    }
}

/// When `a` and `b` share no message, every commit of `a` is unique to it, in
/// `a`'s order.
pub proof fn lemma_unique_when_disjoint(a: CommitIndex, b: CommitIndex)
    requires
        disjoint(a@, b@),
    ensures
        unique_to(a@, b@) == a@.map_values(|e: (Seq<char>, Seq<char>)| (e.1, e.0)),
{
    lemma_unique_all(a@, b@);
}

} // verus!
