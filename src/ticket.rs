//! Ticket statuses for reported commits.
//!
//! A ticket identifier is the first capture group of a regular expression
//! applied to the commit message. The caller fetches the status of each
//! identifier from the tracker; a commit whose message holds no identifier, or
//! whose fetch failed, keeps no status.

use vstd::prelude::*;
use vstd::string::*;
use regex::Regex;
use crate::config::{ProjectManagement, ProjectManagementProvider};
use crate::error::GinspError;
use crate::reconcile::{CommitInfo, opt_text};

verus! {

/// `regex::Regex`, a compiled regular expression.
#[verifier::external_type_specification]
#[verifier::external_body]
pub struct ExRegex(regex::Regex);

/// `regex::Error`, why a pattern did not compile.
#[verifier::external_type_specification]
#[verifier::external_body]
pub struct ExRegexError(regex::Error);

/// `serde_json::Value`, a parsed JSON document.
#[verifier::external_type_specification]
#[verifier::external_body]
pub struct ExJsonValue(serde_json::Value);

/// `serde_json::Error`, why a text is not JSON.
#[verifier::external_type_specification]
#[verifier::external_body]
pub struct ExJsonError(serde_json::Error);

/// Whether `Regex::new` accepts the pattern.
pub uninterp spec fn pattern_compiles(pattern: Seq<char>) -> bool;

/// The text of capture group 1 in the leftmost-first match of `pattern` in
/// `haystack`; none when nothing matches or the group takes no part.
pub uninterp spec fn first_group(pattern: Seq<char>, haystack: Seq<char>) -> Option<Seq<char>>;

/// What `str::replace` gives: every occurrence of `from` in `s`, left to right
/// and without overlap, replaced by `to`. An empty `from` occurs before every
/// character and at the end.
pub open spec fn replaced(s: Seq<char>, from: Seq<char>, to: Seq<char>) -> Seq<char>
    decreases s.len(),
{
    if from.len() == 0 {
        if s.len() == 0 {
            to
        } else {
            to + seq![s[0]] + replaced(s.skip(1), from, to)
        }
    } else if s.len() < from.len() {
        s
    } else if s.take(from.len() as int) == from {
        to + replaced(s.skip(from.len() as int), from, to)
    } else {
        seq![s[0]] + replaced(s.skip(1), from, to)
    }
}

/// Whether `serde_json::from_str` reads the text as a JSON value.
pub uninterp spec fn json_parses(body: Seq<char>) -> bool;

/// What a JSON value holds. Numbers are kept only as such: nothing here reads them.
pub enum JsonModel {
    Null,
    Bool(bool),
    Number,
    Str(Seq<char>),
    Array(Seq<JsonModel>),
    Object(Map<Seq<char>, JsonModel>),
}

/// What a `serde_json::Value` holds.
pub uninterp spec fn json_view(v: serde_json::Value) -> JsonModel;

/// The value that `serde_json::from_str` reads from the text, when it reads one.
pub uninterp spec fn parsed_json(body: Seq<char>) -> JsonModel;

/// The member `key` of an object; none for a missing key or a value that is no object.
pub open spec fn member(j: JsonModel, key: Seq<char>) -> Option<JsonModel> {
    match j {
        JsonModel::Object(m) => if m.contains_key(key) {
            Some(m[key])
        } else {
            None
        },
        _ => None,
    }
}

/// The ticket status in a tracker reply: the string at `fields.status.name`,
/// where `fields` is an object.
pub open spec fn status_name(j: JsonModel) -> Option<Seq<char>> {
    match member(j, "fields"@) {
        Some(fields) => if fields is Object {
            match member(fields, "status"@) {
                Some(st) => match member(st, "name"@) {
                    Some(JsonModel::Str(n)) => Some(n),
                    _ => None,
                },
                None => None,
            }
        } else {
            None
        },
        None => None,
    }
}

/// Relies on `regex::Regex::new`: whether it compiles depends on the pattern alone.
#[verifier::external_body]
fn compile_regex(pattern: &str) -> (r: Result<Regex, regex::Error>)
    ensures
        r is Ok <==> pattern_compiles(pattern@),
{
    Regex::new(pattern)
}

/// Relies on `regex::Regex::captures` and `Captures::get(1)`, on the regex that
/// `TicketPattern::new` compiled from `p`'s source.
#[verifier::external_body]
fn capture_group_one(p: &TicketPattern, haystack: &str) -> (r: Option<String>)
    ensures
        opt_text(r) == first_group(p@, haystack@),
{
    p.regex.captures(haystack).and_then(|c| c.get(1)).map(|m| m.as_str().to_string())
}

/// Relies on `str::replace` with `&str` patterns: leftmost matches first, none overlapping.
#[verifier::external_body]
fn replace_text(s: &str, from: &str, to: &str) -> (r: String)
    ensures
        r@ == replaced(s@, from@, to@),
{
    s.replace(from, to)
}

/// Relies on `serde_json::from_str` into a `serde_json::Value`: whether it
/// succeeds depends on the text alone.
#[verifier::external_body]
fn parse_json(body: &str) -> (r: Result<serde_json::Value, serde_json::Error>)
    ensures
        r is Ok <==> json_parses(body@),
        r matches Ok(v) ==> json_view(v) == parsed_json(body@),
{
    serde_json::from_str(body)
}

/// Relies on `serde_json::Value::get` with a string key: the member of an
/// object, none for a missing key or a value that is no object.
#[verifier::external_body]
fn json_member<'a>(v: &'a serde_json::Value, key: &str) -> (r: Option<&'a serde_json::Value>)
    ensures
        match r {
            Some(x) => member(json_view(*v), key@) == Some(json_view(*x)),
            None => member(json_view(*v), key@) is None,
        },
{
    v.get(key)
}

/// Relies on `serde_json::Value::is_object`: whether the value is an object.
#[verifier::external_body]
fn json_is_object(v: &serde_json::Value) -> (r: bool)
    ensures
        r == (json_view(*v) is Object),
{
    v.is_object()
}

/// Relies on `serde_json::Value::as_str`: the text of a JSON string, none for
/// any other value.
#[verifier::external_body]
fn json_text(v: &serde_json::Value) -> (r: Option<String>)
    ensures
        match r {
            Some(t) => json_view(*v) == JsonModel::Str(t@),
            None => !(json_view(*v) is Str),
        },
{
    v.as_str().map(|s| s.to_string())
}

/// A compiled ticket-identifier pattern, with the text it was compiled from.
pub struct TicketPattern {
    source: String,
    regex: Regex,
}

impl View for TicketPattern {
    type V = Seq<char>;

    closed spec fn view(&self) -> Seq<char> {
        self.source@
    }
}

impl TicketPattern {
    /// Compiles `pattern`; fails exactly when it is not a valid regular expression.
    pub fn new(pattern: &str) -> (r: Result<TicketPattern, GinspError>)
        ensures
            r is Ok <==> pattern_compiles(pattern@),
            r matches Ok(p) ==> p@ == pattern@,
            r matches Err(e) ==> (e matches GinspError::InvalidTicketPattern(s) && s@ == pattern@),
    {
        match compile_regex(pattern) {
            Ok(regex) => Ok(TicketPattern { source: String::from_str(pattern), regex }),
            Err(_) => Err(GinspError::InvalidTicketPattern(String::from_str(pattern))),
        }
    }

    /// The ticket identifier in `message`: the first capture group of the match.
    pub fn extract(&self, message: &str) -> (r: Option<String>)
        ensures
            opt_text(r) == first_group(self@, message@),
    {
        capture_group_one(self, message)
    }
}

/// The ticket identifier that `pattern` captures in `message`.
pub fn extract_ticket_number(message: &str, pattern: &str) -> (r: Option<String>)
    requires
        pattern_compiles(pattern@),
    ensures
        opt_text(r) == first_group(pattern@, message@),
{
    match TicketPattern::new(pattern) {
        Ok(p) => p.extract(message),
        Err(_) => None,
    }
}

/// Like `extract_ticket_number`, for any pattern: an invalid one is an error.
pub fn try_extract_ticket_number(message: &str, pattern: &str) -> (r: Result<Option<String>, GinspError>)
    ensures
        r is Ok <==> pattern_compiles(pattern@),
        r matches Ok(t) ==> opt_text(t) == first_group(pattern@, message@),
{
    match TicketPattern::new(pattern) {
        Ok(_) => Ok(extract_ticket_number(message, pattern)),
        Err(e) => Err(e),
    }
}

/// The identifier to look up for each commit, in order; none where the
/// message holds none.
pub fn ticket_requests(commits: &Vec<CommitInfo>, pattern: &TicketPattern) -> (r: Vec<Option<String>>)
    ensures
        r@.len() == commits@.len(),
        forall|i: int| 0 <= i < r@.len() ==> opt_text(#[trigger] r@[i]) == first_group(pattern@, commits@[i].message@),
{
    let mut out: Vec<Option<String>> = Vec::new();
    let mut i: usize = 0;
    while i < commits.len()
        invariant
            i <= commits@.len(),
            out@.len() == i,
            forall|k: int| 0 <= k < i ==> opt_text(#[trigger] out@[k]) == first_group(pattern@, commits@[k].message@),
        decreases commits.len() - i,
    {
        out.push(pattern.extract(commits[i].message.as_str()));
        i = i + 1;
    }
    out
}

/// The status a fetch gave, if it succeeded.
pub open spec fn fetched_status(f: Option<Result<String, GinspError>>) -> Option<Seq<char>> {
    match f {
        Some(Ok(s)) => Some(s@),
        _ => None,
    }
}

/// The status a commit gets: none without an identifier, else what the fetch gave.
pub open spec fn status_of(requested: Option<String>, fetched: Option<Result<String, GinspError>>) -> Option<Seq<char>> {
    if requested is None {
        None
    } else {
        fetched_status(fetched)
    }
}

/// The status commit `i` gets: none without an identifier requested for it or
/// without a fetch outcome for it, else what the fetch gave.
pub open spec fn status_at(
    requested: Seq<Option<String>>,
    fetched: Seq<Option<Result<String, GinspError>>>,
    i: int,
) -> Option<Seq<char>> {
    if i < requested.len() && i < fetched.len() {
        status_of(requested[i], fetched[i])
    } else {
        None
    }
}

/// Fills in each commit's ticket status from the identifier requested for it
/// and the outcome of fetching it. A commit with no identifier, or whose fetch
/// failed or did not happen, gets no status. Order, count and everything else
/// are kept.
pub fn map_ticket_status(
    commits: Vec<CommitInfo>,
    requested: &Vec<Option<String>>,
    fetched: Vec<Option<Result<String, GinspError>>>,
) -> (r: Vec<CommitInfo>)
    ensures
        r@.len() == commits@.len(),
        forall|i: int| 0 <= i < r@.len() ==> {
            &&& (#[trigger] r@[i]).hash@ == commits@[i].hash@
            &&& r@[i].message@ == commits@[i].message@
            &&& r@[i].is_picked == commits@[i].is_picked
            &&& opt_text(r@[i].status) == status_at(requested@, fetched@, i)
        },
{
    let mut out: Vec<CommitInfo> = Vec::new();
    let mut commits = commits;
    let ghost cs = commits@;
    let n = commits.len();
    let mut i: usize = 0;
    while i < n
        invariant
            n == cs.len(),
            i <= n,
            commits@ == cs.skip(i as int),
            out@.len() == i,
            forall|k: int| 0 <= k < i ==> {
                &&& (#[trigger] out@[k]).hash@ == cs[k].hash@
                &&& out@[k].message@ == cs[k].message@
                &&& out@[k].is_picked == cs[k].is_picked
                &&& opt_text(out@[k].status) == status_at(requested@, fetched@, k)
            },
        decreases n - i,
    {
        let c = commits.remove(0);
        proof {
            assert(commits@ =~= cs.skip(i as int + 1));
        }
        let mut status: Option<String> = None;
        if i < requested.len() && i < fetched.len() {
            if requested[i].is_some() {
                match &fetched[i] {
                    Some(Ok(s)) => {
                        status = Some(s.clone());
                    },
                    _ => {},
                }
            }
        }
        out.push(CommitInfo { hash: c.hash, message: c.message, status, is_picked: c.is_picked });
        i = i + 1;
    }
    out
}

/// Enrichment is best effort: a commit whose message the pattern finds no
/// identifier in gets no status, and so does one whose fetch failed; neither
/// is an error, and every commit is kept.
pub proof fn lemma_enrichment_best_effort(
    pattern: Seq<char>,
    commits: Seq<CommitInfo>,
    requested: Seq<Option<String>>,
    fetched: Seq<Option<Result<String, GinspError>>>,
)
    requires
        requested.len() == commits.len(),
        forall|i: int| 0 <= i < requested.len() ==> opt_text(#[trigger] requested[i]) == first_group(pattern, commits[i].message@),
    ensures
        forall|i: int| 0 <= i < commits.len() && first_group(pattern, commits[i].message@) is None
            ==> #[trigger] status_at(requested, fetched, i) is None,
        forall|i: int| 0 <= i < fetched.len() && (fetched[i] matches Some(Err(_)))
            ==> #[trigger] status_at(requested, fetched, i) is None,
{
    assert forall|i: int| 0 <= i < commits.len() && first_group(pattern, commits[i].message@) is None
        implies #[trigger] status_at(requested, fetched, i) is None by {
        assert(opt_text(requested[i]) is None);
    }
}

/// What to ask the tracker for one ticket.
pub struct TicketRequest {
    pub url: String,
    pub username: String,
    pub password: String,
}

/// The position of the first `:` in `s`, if any.
pub open spec fn first_colon(s: Seq<char>, i: int) -> bool {
    &&& 0 <= i < s.len()
    &&& s[i] == ':'
    &&& forall|j: int| 0 <= j < i ==> s[j] != ':'
}

/// `s` holds no `:`.
pub open spec fn no_colon(s: Seq<char>) -> bool {
    forall|j: int| 0 <= j < s.len() ==> s[j] != ':'
}

/// The position of the first `:` in `s`.
fn find_colon(s: &str) -> (r: Option<usize>)
    ensures
        match r {
            Some(i) => first_colon(s@, i as int),
            None => no_colon(s@),
        },
{
    let n = s.unicode_len();
    let mut i: usize = 0;
    while i < n
        invariant
            n == s@.len(),
            i <= n,
            forall|j: int| 0 <= j < i ==> s@[j] != ':',
        decreases n - i,
    {
        if s.get_char(i) == ':' {
            return Some(i);
        }
        i = i + 1;
    }
    None
}

/// The request for the status of `ticket_number`: the tracker's address with the
/// identifier in place of `:ticket_id`, and the credential key cut at its first
/// `:` into user name and password. A key without `:` is an error.
pub fn get_ticket_status(ticket_number: &str, project_management: &ProjectManagement) -> (r: Result<TicketRequest, GinspError>)
    ensures
        r is Ok <==> !no_colon(project_management.credential_key@),
        r matches Err(e) ==> e is InvalidCredentialKey,
        r matches Ok(q) ==> {
            let key = project_management.credential_key@;
            &&& q.url@ == replaced(project_management.url@, ":ticket_id"@, ticket_number@)
            &&& exists|i: int| first_colon(key, i) && q.username@ == key.subrange(0, i)
                && q.password@ == key.subrange(i + 1, key.len() as int)
        },
{
    let key = project_management.credential_key.as_str();
    let split_at = match find_colon(key) {
        Some(i) => i,
        None => return Err(GinspError::InvalidCredentialKey),
    };
    let url = match project_management.provider {
        ProjectManagementProvider::Jira => replace_text(project_management.url.as_str(), ":ticket_id", ticket_number),
    };
    let n = key.unicode_len();
    let username = String::from_str(key.substring_char(0, split_at));
    let password = String::from_str(key.substring_char(split_at + 1, n));
    Ok(TicketRequest { url, username, password })
}

/// The HTTP status code of a successful reply.
pub const HTTP_OK: u16 = 200;

/// The tracker's client.
pub struct Jira {}

impl Jira {
    /// The ticket status in a tracker reply: on status 200, the string at
    /// `fields.status.name` of the JSON body. Any other status code, a body
    /// that is not JSON, or a missing field is an error.
    pub fn status_from_response(status: u16, body: &str) -> (r: Result<String, GinspError>)
        ensures
            status != HTTP_OK ==> (r matches Err(GinspError::ProviderUnavailable { status: s, .. }) && s == status),
            status == HTTP_OK && !json_parses(body@) ==> (r matches Err(
                GinspError::ProviderUnavailable { status: s, .. },
            ) && s == status),
            status == HTTP_OK && json_parses(body@) ==> match status_name(parsed_json(body@)) {
                Some(n) => r matches Ok(t) && t@ == n,
                None => r matches Err(GinspError::ProviderUnavailable { status: s, .. }) && s == status,
            },
    {
        if status != HTTP_OK {
            return Err(GinspError::ProviderUnavailable { status, detail: String::from_str("unexpected status") });
        }
        let json = match parse_json(body) {
            Ok(v) => v,
            Err(_) => return Err(GinspError::ProviderUnavailable { status, detail: String::from_str("body is not JSON") }),
        };
        let fields = match json_member(&json, "fields") {
            Some(f) => f,
            None => return Err(GinspError::ProviderUnavailable { status, detail: String::from_str("fields not found") }),
        };
        if !json_is_object(fields) {
            return Err(GinspError::ProviderUnavailable { status, detail: String::from_str("fields not found") });
        }
        let name = match json_member(fields, "status") {
            Some(s) => json_member(s, "name"),
            None => None,
        };
        match name {
            Some(n) => match json_text(n) {
                Some(text) => Ok(text),
                None => Err(GinspError::ProviderUnavailable { status, detail: String::from_str("status not found") }),
            },
            None => Err(GinspError::ProviderUnavailable { status, detail: String::from_str("status not found") }),
        }
    }
}

} // verus!
