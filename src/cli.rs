//! The command line, as plain values.

pub mod diagnostic;
pub mod diff_message;
pub mod update;
pub mod version;

use vstd::prelude::*;
use vstd::string::*;
use crate::text::texts;
use crate::error::GinspError;

verus! {

/// A parsed command line.
pub struct Cli {
    pub subcommand: SubCommand,
}

/// The commands of the tool.
pub enum SubCommand {
    /// Print the version.
    Version,
    /// Fetch everything, then check out and pull each branch.
    Update(Update),
    /// Compare two branches by commit message.
    DiffMessage(DiffMessageParams),
    /// Check that the tool can work here.
    Diagnostic,
}

/// Options of `update`.
pub struct Update {
    pub branches: Vec<String>,
    pub verbose: bool,
}

/// Options of `diff-message`.
pub struct DiffMessageParams {
    /// The source and the target branch.
    pub branches: Vec<String>,
    /// Comma-separated texts; commits whose message holds one are replayed.
    pub pick_contains: Option<String>,
    /// Whether to look up each commit's ticket status.
    pub is_fetch_ticket_status: bool,
    pub verbose: bool,
}

/// The pieces of `s` between commas, left to right; a text without comma is one
/// piece, and an empty text is one empty piece.
pub open spec fn split_commas(s: Seq<char>) -> Seq<Seq<char>>
    decreases s.len(),
{
    if s.len() == 0 {
        seq![Seq::<char>::empty()]
    } else {
        let rest = split_commas(s.drop_last());
        if s.last() == ',' {
            rest.push(Seq::empty())
        } else {
            rest.update(rest.len() - 1, rest.last().push(s.last()))
        }
    }
}

proof fn lemma_split_nonempty(s: Seq<char>)
    ensures
        split_commas(s).len() >= 1,
    decreases s.len(),
{
    if s.len() > 0 {
        lemma_split_nonempty(s.drop_last());
    }
}

/// Cuts a comma-separated list into its pieces.
pub fn split_patterns(s: &str) -> (r: Vec<String>)
    ensures
        texts(r@) == split_commas(s@),
{
    let n = s.unicode_len();
    let mut pieces: Vec<String> = Vec::new();
    let mut start: usize = 0;
    let mut i: usize = 0;
    proof {
        assert(s@.take(0) =~= Seq::<char>::empty());
        assert(texts(pieces@).push(s@.subrange(0, 0)) =~= seq![Seq::<char>::empty()]);
    }
    while i < n
        invariant
            n == s@.len(),
            start <= i <= n,
            split_commas(s@.take(i as int)) == texts(pieces@).push(s@.subrange(start as int, i as int)),
        decreases n - i,
    {
        let c = s.get_char(i);
        proof {
            let t = s@.take(i as int + 1);
            assert(t.drop_last() =~= s@.take(i as int));
            assert(t.last() == c);
            lemma_split_nonempty(s@.take(i as int));
        }
        if c == ',' {
            let ghost before = pieces@;
            pieces.push(String::from_str(s.substring_char(start, i)));
            proof {
                assert(texts(pieces@) =~= texts(before).push(s@.subrange(start as int, i as int)));
                assert(s@.subrange(i as int + 1, i as int + 1) =~= Seq::<char>::empty());
            }
            start = i + 1;
        } else {
            proof {
                assert(s@.subrange(start as int, i as int).push(c) =~= s@.subrange(start as int, i as int + 1));
                assert(texts(pieces@).push(s@.subrange(start as int, i as int)).update(
                    texts(pieces@).len() as int,
                    s@.subrange(start as int, i as int + 1),
                ) =~= texts(pieces@).push(s@.subrange(start as int, i as int + 1)));
            }
        }
        i = i + 1;
    }
    let ghost before = pieces@;
    pieces.push(String::from_str(s.substring_char(start, n)));
    proof {
        assert(s@.take(n as int) =~= s@);
        assert(texts(pieces@) =~= texts(before).push(s@.subrange(start as int, n as int)));
    }
    pieces
}

impl DiffMessageParams {
    /// The texts to replay by: the pieces of `pick_contains`, or none without it.
    pub fn pick_patterns(&self) -> (r: Vec<String>)
        ensures
            texts(r@) == match self.pick_contains {
                Some(s) => split_commas(s@),
                None => Seq::empty(),
            },
    {
        match &self.pick_contains {
            Some(s) => split_patterns(s.as_str()),
            None => {
                let v: Vec<String> = Vec::new();
                proof {
                    assert(texts(v@) =~= Seq::empty());
                }
                v
            },
        }
    }

    /// The source and target branch; exactly two must be given.
    pub fn branch_pair(&self) -> (r: Result<(String, String), GinspError>)
        ensures
            r is Ok <==> self.branches@.len() == 2,
            r matches Ok(p) ==> p.0@ == self.branches@[0]@ && p.1@ == self.branches@[1]@,
            r matches Err(e) ==> e is Cli,
    {
        if self.branches.len() != 2 {
            return Err(GinspError::Cli(String::from_str("Provide 2 branches to compare")));
        }
        Ok((self.branches[0].clone(), self.branches[1].clone()))
    }
}

} // verus!
