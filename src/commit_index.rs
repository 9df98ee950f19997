//! The per-branch index from trimmed commit message to short hash.

use vstd::prelude::*;
use indexmap::IndexMap;
use vstd::string::*;
use crate::text::{texts, trim_text, trimmed};
use crate::error::GinspError;

verus! {

/// `indexmap::IndexMap`, an ordered hash map, known to Verus by its contents only.
#[verifier::external_type_specification]
#[verifier::external_body]
#[verifier::reject_recursive_types(K)]
#[verifier::reject_recursive_types(V)]
#[verifier::reject_recursive_types(S)]
pub struct ExIndexMap<K, V, S>(IndexMap<K, V, S>);

/// The entries of an ordered map of strings, as (key, value) pairs in the map's order.
pub uninterp spec fn map_entries(m: IndexMap<String, String>) -> Seq<(Seq<char>, Seq<char>)>;

/// Some entry of `es` has key `k`.
pub open spec fn has_key(es: Seq<(Seq<char>, Seq<char>)>, k: Seq<char>) -> bool {
    exists|i: int| 0 <= i < es.len() && #[trigger] es[i].0 == k
}

/// The position of an entry with key `k` (meaningful when `has_key(es, k)`).
pub open spec fn key_position(es: Seq<(Seq<char>, Seq<char>)>, k: Seq<char>) -> int {
    choose|i: int| 0 <= i < es.len() && #[trigger] es[i].0 == k
}

/// No two entries share a key.
pub open spec fn keys_unique(es: Seq<(Seq<char>, Seq<char>)>) -> bool {
    forall|i: int, j: int| 0 <= i < j < es.len() ==> #[trigger] es[i].0 != #[trigger] es[j].0
}

/// The entries after inserting `(k, v)`: an entry with key `k` keeps its place and
/// takes the value `v`; otherwise the pair goes last.
pub open spec fn with_entry(es: Seq<(Seq<char>, Seq<char>)>, k: Seq<char>, v: Seq<char>) -> Seq<(Seq<char>, Seq<char>)> {
    if has_key(es, k) {
        es.update(key_position(es, k), (k, v))
    } else {
        es.push((k, v))
    }
}

/// Relies on `IndexMap::new`: the map starts empty.
#[verifier::external_body]
fn map_new() -> (r: IndexMap<String, String>)
    ensures
        map_entries(r) == Seq::<(Seq<char>, Seq<char>)>::empty(),
{
    IndexMap::new()
}

/// Relies on `IndexMap::insert`: an equal key keeps its place and takes the new
/// value; a new key goes last.
#[verifier::external_body]
fn map_insert(m: &mut IndexMap<String, String>, k: String, v: String)
    ensures
        map_entries(*final(m)) == with_entry(map_entries(*old(m)), k@, v@),
{
    m.insert(k, v);
}

/// Relies on `IndexMap::contains_key`: true exactly when some entry has key `k`.
#[verifier::external_body]
fn map_contains_key(m: &IndexMap<String, String>, k: &str) -> (r: bool)
    ensures
        r == has_key(map_entries(*m), k@),
{
    m.contains_key(k)
}

/// Relies on `IndexMap::len`: the number of entries.
#[verifier::external_body]
fn map_len(m: &IndexMap<String, String>) -> (r: usize)
    ensures
        r == map_entries(*m).len(),
{
    m.len()
}

/// Relies on `IndexMap::get_index`: the entry at position `i` of the map's order.
#[verifier::external_body]
fn map_entry_at(m: &IndexMap<String, String>, i: usize) -> (r: (String, String))
    requires
        i < map_entries(*m).len(),
    ensures
        r.0@ == map_entries(*m)[i as int].0,
        r.1@ == map_entries(*m)[i as int].1,
{
    let (k, v) = m.get_index(i).unwrap();
    (k.clone(), v.clone())
}

proof fn lemma_with_entry_unique(es: Seq<(Seq<char>, Seq<char>)>, k: Seq<char>, v: Seq<char>)
    requires
        keys_unique(es),
    ensures
        keys_unique(with_entry(es, k, v)),
        forall|q: Seq<char>| has_key(with_entry(es, k, v), q) <==> (has_key(es, q) || q == k),
        with_entry(es, k, v).len() == es.len() + if has_key(es, k) { 0int } else { 1int },
{
    let r = with_entry(es, k, v);
    if has_key(es, k) {
        let p = key_position(es, k);
        assert forall|q: Seq<char>| has_key(r, q) <==> (has_key(es, q) || q == k) by {
            if has_key(r, q) {
                let i = choose|i: int| 0 <= i < r.len() && #[trigger] r[i].0 == q;
                if i != p {
                    assert(es[i].0 == q);
                }
            }
            if has_key(es, q) {
                let i = choose|i: int| 0 <= i < es.len() && #[trigger] es[i].0 == q;
                if i == p {
                    assert(r[p].0 == k);
                } else {
                    assert(r[i].0 == q);
                }
            }
            if q == k {
                assert(r[p].0 == k);
            }
        }
    } else {
        assert forall|q: Seq<char>| has_key(r, q) <==> (has_key(es, q) || q == k) by {
            if has_key(r, q) {
                let i = choose|i: int| 0 <= i < r.len() && #[trigger] r[i].0 == q;
                if i < es.len() {
                    assert(es[i].0 == q);
                }
            }
            if has_key(es, q) {
                let i = choose|i: int| 0 <= i < es.len() && #[trigger] es[i].0 == q;
                assert(r[i].0 == q);
            }
            if q == k {
                assert(r[es.len() as int].0 == k);
            }
        }
    }
}

} // verus!

verus! {

/// Width of the abbreviated hash that starts each history line.
pub const HASH_WIDTH: usize = 7;

/// The (hash, message) that a history line `<hash><message>` holds: the line is
/// cut after `HASH_WIDTH` characters and both halves are trimmed; a line too
/// short, or with an empty half, holds none.
pub open spec fn parse_line(line: Seq<char>) -> Option<(Seq<char>, Seq<char>)> {
    if line.len() < HASH_WIDTH {
        None
    } else {
        let h = trimmed(line.subrange(0, HASH_WIDTH as int));
        let m = trimmed(line.subrange(HASH_WIDTH as int, line.len() as int));
        if h.len() == 0 || m.len() == 0 {
            None
        } else {
            Some((h, m))
        }
    }
}

/// The entries (message, hash) of the index built from `lines` in order, where
/// every line parses.
pub open spec fn index_of_lines(lines: Seq<Seq<char>>) -> Seq<(Seq<char>, Seq<char>)>
    decreases lines.len(),
{
    if lines.len() == 0 {
        Seq::empty()
    } else {
        let prev = index_of_lines(lines.drop_last());
        match parse_line(lines.last()) {
            Some(p) => with_entry(prev, p.1, p.0),
            None => prev,
        }
    }
}

/// Every line parses.
pub open spec fn all_parse(lines: Seq<Seq<char>>) -> bool {
    forall|i: int| 0 <= i < lines.len() ==> (#[trigger] parse_line(lines[i])) is Some
}

/// Line `i` is the first that does not parse.
pub open spec fn first_malformed(lines: Seq<Seq<char>>, i: int) -> bool {
    &&& 0 <= i < lines.len()
    &&& parse_line(lines[i]) is None
    &&& all_parse(lines.take(i))
}

/// `e` names `branch` and the first line of `lines` that does not parse.
pub open spec fn reports_malformed(e: GinspError, branch: Seq<char>, lines: Seq<String>) -> bool {
    match e {
        GinspError::MalformedCommitLine { branch: b, line: l } => {
            &&& b@ == branch
            &&& exists|i: int| first_malformed(texts(lines), i) && l@ == lines[i]@
        },
        _ => false,
    }
}

/// Cuts a history line into its hash and message, both trimmed.
pub fn parse_log_line(line: &str) -> (r: Option<(String, String)>)
    ensures
        match r {
            Some(p) => parse_line(line@) == Some((p.0@, p.1@)),
            None => parse_line(line@) is None,
        },
{
    let n = line.unicode_len();
    if n < HASH_WIDTH {
        return None;
    }
    let hash = trim_text(line.substring_char(0, HASH_WIDTH));
    let message = trim_text(line.substring_char(HASH_WIDTH, n));
    if hash.as_str().unicode_len() == 0 || message.as_str().unicode_len() == 0 {
        None
    } else {
        Some((hash, message))
    }
}

/// The commits of one branch, keyed by trimmed message, in the branch's log order.
pub struct CommitIndex {
    map: IndexMap<String, String>,
}

impl View for CommitIndex {
    type V = Seq<(Seq<char>, Seq<char>)>;

    /// The (message, hash) entries in insertion order.
    closed spec fn view(&self) -> Seq<(Seq<char>, Seq<char>)> {
        map_entries(self.map)
    }
}

impl CommitIndex {
    #[verifier::type_invariant]
    spec fn inv(self) -> bool {
        keys_unique(map_entries(self.map))
    }

    /// An index with no commit.
    pub fn new() -> (r: CommitIndex)
        ensures
            r@ == Seq::<(Seq<char>, Seq<char>)>::empty(),
    {
        CommitIndex { map: map_new() }
    }

    /// The index with `hash` recorded under `message`: a message already present
    /// keeps its place and takes the new hash.
    pub fn with_commit(self, message: String, hash: String) -> (r: CommitIndex)
        ensures
            r@ == with_entry(self@, message@, hash@),
            keys_unique(r@),
    {
        proof {
            use_type_invariant(&self);
            lemma_with_entry_unique(self@, message@, hash@);
        }
        let mut map = self.map;
        map_insert(&mut map, message, hash);
        CommitIndex { map }
    }

    /// The number of distinct messages.
    pub fn len(&self) -> (r: usize)
        ensures
            r == self@.len(),
    {
        map_len(&self.map)
    }

    /// The (message, hash) at position `i`.
    pub fn entry(&self, i: usize) -> (r: (String, String))
        requires
            i < self@.len(),
        ensures
            r.0@ == self@[i as int].0,
            r.1@ == self@[i as int].1,
    {
        map_entry_at(&self.map, i)
    }

    /// Whether some commit has exactly this message.
    pub fn contains_message(&self, message: &str) -> (r: bool)
        ensures
            r == has_key(self@, message@),
    {
        map_contains_key(&self.map, message)
    }
}

/// Builds the index of `branch` from its history lines, newest first. Fails on the
/// first line that does not parse.
pub fn load_commits_as_map(branch: &str, lines: &Vec<String>) -> (r: Result<CommitIndex, GinspError>)
    ensures
        r is Ok <==> all_parse(texts(lines@)),
        r matches Ok(idx) ==> idx@ == index_of_lines(texts(lines@)) && keys_unique(idx@),
        r matches Err(e) ==> reports_malformed(e, branch@, lines@),
{
    let ghost ls = texts(lines@);
    let mut index = CommitIndex::new();
    let mut i: usize = 0;
    while i < lines.len()
        invariant
            ls == texts(lines@),
            i <= lines.len(),
            index@ == index_of_lines(ls.take(i as int)),
            all_parse(ls.take(i as int)),
        decreases lines.len() - i,
    {
        proof {
            assert(ls.take(i as int + 1).drop_last() =~= ls.take(i as int));
            assert(ls[i as int] == lines@[i as int]@);
        }
        match parse_log_line(lines[i].as_str()) {
            Some((hash, message)) => {
                index = index.with_commit(message, hash);
                proof {
                    assert forall|j: int| 0 <= j < i + 1 implies (#[trigger] parse_line(ls.take(i as int + 1)[j])) is Some by {
                        if j < i {
                            assert(ls.take(i as int + 1)[j] == ls.take(i as int)[j]);
                        }
                    }
                }
            },
            None => {
                let ghost k = i as int;
                assert(first_malformed(ls, k));
                return Err(GinspError::MalformedCommitLine {
                    branch: String::from_str(branch),
                    line: lines[i].clone(),
                });
            },
        }
        i = i + 1;
    }
    proof {
        assert(ls.take(lines.len() as int) =~= ls);
        use_type_invariant(&index);
    }
    Ok(index)
}

} // verus!
