use vstd::prelude::*;
use vstd::pervasive::unreached;
use once_cell_regex::exports::regex::Regex;

verus! {

#[verifier::external_type_specification]
#[verifier::external_body]
pub struct ExBossyError(bossy::Error);

/// The text patterns that command output is searched with.
#[derive(Clone, Copy, Debug, PartialEq, Eq, Structural)]
pub enum Pattern {
    /// `host: <triple>` in the verbose version output of the compiler;
    /// group 1 is the triple.
    HostTriple,
    /// The compiler's version line; see [`crate::version`] for its groups.
    RustVersion,
}

/// The number of capture groups of each pattern, the whole match included.
pub open spec fn group_count(p: Pattern) -> nat {
    match p {
        Pattern::HostTriple => 2,
        Pattern::RustVersion => 14,
    }
}

/// Whether group `i` of a pattern takes part in every match.
pub open spec fn group_required(p: Pattern, i: int) -> bool {
    match p {
        Pattern::HostTriple => true,
        Pattern::RustVersion => !(5 <= i <= 8),
    }
}

/// What a match of `p` looks like: one entry per group, and every group
/// that is not optional present.
pub open spec fn groups_complete(p: Pattern, g: Seq<Option<String>>) -> bool {
    &&& g.len() == group_count(p)
    &&& forall|i: int| 0 <= i < g.len() && group_required(p, i) ==> (#[trigger] g[i]) is Some
}

/// The text of each group, `None` for a group that took no part in the match.
pub open spec fn group_views(g: Seq<Option<String>>) -> Seq<Option<Seq<char>>> {
    g.map_values(|o: Option<String>|
        match o {
            Some(s) => Some(s@),
            None => None,
        })
}

/// The groups of the leftmost match of `host: ([\w-]+)` in a text.
pub uninterp spec fn host_triple_match(text: Seq<char>) -> Option<Seq<Option<Seq<char>>>>;

/// The groups of the leftmost match of the compiler's version line pattern in a text.
pub uninterp spec fn rust_version_match(text: Seq<char>) -> Option<Seq<Option<Seq<char>>>>;

/// The groups of the leftmost match of a pattern in a text.
pub open spec fn pattern_match(p: Pattern, text: Seq<char>) -> Option<Seq<Option<Seq<char>>>> {
    match p {
        Pattern::HostTriple => host_triple_match(text),
        Pattern::RustVersion => rust_version_match(text),
    }
}

/// Relies on `regex::Regex::new`, which accepts `host: ([\w-]+)`, and on
/// `regex::Regex::captures`: the groups of the leftmost match, if any. The
/// pattern has one group, which every match fills.
#[verifier::external_body]
fn capture_host_triple(text: &str) -> (r: Option<Vec<Option<String>>>)
    ensures
        match r {
            None => host_triple_match(text@) is None,
            Some(g) => host_triple_match(text@) == Some(group_views(g@))
                && groups_complete(Pattern::HostTriple, g@),
        },
{
    let re = Regex::new(r"host: ([\w-]+)").expect("the pattern is valid");
    re.captures(text).map(|caps| caps.iter().map(|m| m.map(|m| m.as_str().to_owned())).collect())
}

/// Relies on `regex::Regex::new`, which accepts the compiler's version line
/// pattern, and on `regex::Regex::captures`: the groups of the leftmost match,
/// if any. The pattern has thirteen groups, of which only the pre-release
/// ones (5 to 8) may be left out of a match.
#[verifier::external_body]
fn capture_rust_version(text: &str) -> (r: Option<Vec<Option<String>>>)
    ensures
        match r {
            None => rust_version_match(text@) is None,
            Some(g) => rust_version_match(text@) == Some(group_views(g@))
                && groups_complete(Pattern::RustVersion, g@),
        },
{
    let re = Regex::new(
        r"rustc (?P<version>(?P<major>\d+)\.(?P<minor>\d+)\.(?P<patch>\d+)(-(?P<flavor>\w+)(.(?P<candidate>\d+))?)?) \((?P<hash>\w{9}) (?P<date>(?P<year>\d{4})-(?P<month>\d{2})-(?P<day>\d{2}))\)",
    ).expect("the pattern is valid");
    re.captures(text).map(|caps| caps.iter().map(|m| m.map(|m| m.as_str().to_owned())).collect())
}

/// Searches `text` with `p`.
fn capture(p: Pattern, text: &str) -> (r: Option<Vec<Option<String>>>)
    ensures
        match r {
            None => pattern_match(p, text@) is None,
            Some(g) => pattern_match(p, text@) == Some(group_views(g@)) && groups_complete(p, g@),
        },
{
    match p {
        Pattern::HostTriple => capture_host_triple(text),
        Pattern::RustVersion => capture_rust_version(text),
    }
}

/// Why searching a command's output failed.
#[derive(Debug)]
pub enum RunAndSearchError {
    /// The command could not be run, or failed.
    CommandFailed(bossy::Error),
    /// The command ran, but its output holds no match.
    SearchFailed { command: String, output: String },
}

/// Takes the outcome of running `command` (its text form) and searches its
/// output with `pattern`, giving the groups of the first match.
pub fn run_and_search(
    command: String,
    outcome: Result<String, bossy::Error>,
    pattern: Pattern,
) -> (r: Result<Vec<Option<String>>, RunAndSearchError>)
    ensures
        match outcome {
            Err(e) => r == Err::<Vec<Option<String>>, _>(RunAndSearchError::CommandFailed(e)),
            Ok(output) => match pattern_match(pattern, output@) {
                None => r == Err::<Vec<Option<String>>, _>(
                    (RunAndSearchError::SearchFailed { command, output }),
                ),
                Some(gs) => r matches Ok(g) && group_views(g@) == gs && groups_complete(pattern, g@),
            },
        },
{
    match outcome {
        Err(e) => Err(RunAndSearchError::CommandFailed(e)),
        Ok(output) => match capture(pattern, output.as_str()) {
            None => Err(RunAndSearchError::SearchFailed { command, output }),
            Some(g) => Ok(g),
        },
    }
}

/// Why the host's target triple could not be found.
#[derive(Debug)]
pub enum HostTargetTripleError {
    CommandFailed(RunAndSearchError),
}

/// Takes the outcome of running the compiler's verbose version command and
/// gives the host target triple that it names.
pub fn host_target_triple(
    command: String,
    outcome: Result<String, bossy::Error>,
) -> (r: Result<String, HostTargetTripleError>)
    ensures
        match outcome {
            Err(e) => r == Err::<String, _>(
                HostTargetTripleError::CommandFailed(RunAndSearchError::CommandFailed(e)),
            ),
            Ok(output) => match host_triple_match(output@) {
                None => r == Err::<String, _>(HostTargetTripleError::CommandFailed(
                    (RunAndSearchError::SearchFailed { command, output }),
                )),
                Some(gs) => r matches Ok(t) && gs.len() == 2 && gs[1] == Some(t@),
            },
        },
{
    match run_and_search(command, outcome, Pattern::HostTriple) {
        Err(e) => Err(HostTargetTripleError::CommandFailed(e)),
        Ok(mut g) => {
            let triple = g.remove(1);
            match triple {
                Some(t) => Ok(t),
                None => unreached(),
            }
        },
    }
}

} // verus!
