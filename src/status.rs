use regex::Regex;
use vstd::prelude::*;
use vstd::utf8::{decode_utf8, valid_utf8};

verus! {

/// Number of tab characters in `s`.
pub open spec fn tab_count(s: Seq<char>) -> nat
    decreases s.len(),
{
    if s.len() == 0 {
        0
    } else {
        tab_count(s.drop_last()) + if s.last() == '\t' { 1nat } else { 0nat }
    }
}

/// The change count reported for a status output: its number of tabs, or 0
/// where that number does not fit in an `i32`.
pub open spec fn change_count(output: Seq<char>) -> i32 {
    if tab_count(output) <= i32::MAX {
        tab_count(output) as i32
    } else {
        0
    }
}

proof fn lemma_tab_count_push(s: Seq<char>, c: char)
    ensures
        tab_count(s.push(c)) == tab_count(s) + if c == '\t' { 1nat } else { 0nat },
{
    assert(s.push(c).drop_last() =~= s);
}

/// Counts the tab characters of a status output, each of which stands for one
/// changed entry.
pub fn count_changes(output: &str) -> (n: i32)
    ensures
        n == change_count(output@),
{
    let mut count: i32 = 0;
    let mut too_many: bool = false;
    let ghost mut seen: Seq<char> = Seq::empty();
    for c in it: output.chars()
        invariant
            it.seq() == output@,
            seen == output@.take(it.index() as int),
            too_many <==> tab_count(seen) > i32::MAX,
            !too_many ==> count == tab_count(seen),
    {
        proof {
            assert(output@.take(it.index() + 1) =~= seen.push(c));
            lemma_tab_count_push(seen, c);
            seen = seen.push(c);
        }
        if c == '\t' && !too_many {
            if count == i32::MAX {
                too_many = true;
            } else {
                count = count + 1;
            }
        }
    }
    proof {
        assert(seen =~= output@);
    }
    if too_many {
        0
    } else {
        count
    }
}

/// Why a repository's status could not be read.
#[derive(Debug, Clone, Copy, PartialEq, Eq, Structural)]
pub enum ProbeError {
    /// The status command could not be started.
    ProcessLaunchError,
    /// The status output names no branch.
    BranchNotFound,
    /// The status command did not finish in time.
    Timeout,
}

/// What running the status command in one repository gave.
#[derive(Debug, Clone)]
pub enum RunOutcome {
    /// The command ran; its standard output as raw bytes.
    Finished(Vec<u8>),
    /// The command could not be started.
    LaunchFailed,
    /// The command was given up on before it finished.
    TimedOut,
}

/// Pattern that finds the branch in a status output: `branch ` and a word.
pub const BRANCH_PATTERN: &'static str = r"branch (?<branch>\w+)";

/// Name of the capture group of `BRANCH_PATTERN` that holds the branch.
pub const BRANCH_GROUP: &'static str = "branch";

/// Text of capture group `group` in the leftmost match of `pattern` in `text`;
/// `None` where the pattern is invalid, nothing matches or the group is absent.
pub uninterp spec fn regex_capture(pattern: Seq<char>, group: Seq<char>, text: Seq<char>) -> Option<Seq<char>>;

/// Text that `String::from_utf8_lossy` makes of `bytes`.
pub uninterp spec fn lossy_text(bytes: Seq<u8>) -> Seq<char>;

/// Relies on regex::Regex::new, Regex::captures and Captures::name: the text of
/// the named group in the leftmost match, and `None` where the pattern does not
/// compile or nothing matches.
#[verifier::external_body]
fn first_capture(pattern: &str, group: &str, text: &str) -> (r: Option<String>)
    ensures
        r matches Some(c) ==> regex_capture(pattern@, group@, text@) == Some(c@),
        r is None ==> regex_capture(pattern@, group@, text@) is None,
{
    let re = Regex::new(pattern).ok()?;
    let caps = re.captures(text)?;
    let found = caps.name(group)?;
    Some(found.as_str().to_owned())
}

/// Relies on String::from_utf8_lossy: invalid sequences become U+FFFD, and valid
/// UTF-8 is decoded as it stands.
#[verifier::external_body]
fn decode_lossy(bytes: &[u8]) -> (r: String)
    ensures
        r@ == lossy_text(bytes@),
        valid_utf8(bytes@) ==> r@ == decode_utf8(bytes@),
{
    String::from_utf8_lossy(bytes).into_owned()
}

/// The branch that a status output names, if any.
pub open spec fn branch_of(output: Seq<char>) -> Option<Seq<char>> {
    regex_capture(BRANCH_PATTERN@, BRANCH_GROUP@, output)
}

/// Outcome of reading a status output whose branch search gave `branch`.
pub open spec fn status_spec(output: Seq<char>, branch: Option<Seq<char>>) -> Result<(Seq<char>, i32), ProbeError> {
    match branch {
        Some(b) => Ok((b, change_count(output))),
        None => Err(ProbeError::BranchNotFound),
    }
}

/// Outcome of one probe, from what the status command gave.
pub open spec fn probe_spec(run: RunOutcome) -> Result<(Seq<char>, i32), ProbeError> {
    match run {
        RunOutcome::Finished(bytes) => status_spec(lossy_text(bytes@), branch_of(lossy_text(bytes@))),
        RunOutcome::LaunchFailed => Err(ProbeError::ProcessLaunchError),
        RunOutcome::TimedOut => Err(ProbeError::Timeout),
    }
}

/// A probe result with its branch as a sequence of characters.
pub open spec fn status_view(r: Result<(String, i32), ProbeError>) -> Result<(Seq<char>, i32), ProbeError> {
    match r {
        Ok((b, n)) => Ok((b@, n)),
        Err(e) => Err(e),
    }
}

/// Builds the probe result of a status output from the outcome of its branch
/// search: the branch with the output's change count, or `BranchNotFound`.
pub fn status_from_branch(output: &str, branch: Option<String>) -> (r: Result<(String, i32), ProbeError>)
    ensures
        status_view(r) == status_spec(output@, match branch { Some(b) => Some(b@), None => None }),
{
    match branch {
        Some(b) => Ok((b, count_changes(output))),
        None => Err(ProbeError::BranchNotFound),
    }
}

/// Reads a status output: the first word after `branch `, and the number of
/// tabs as the change count.
pub fn parse_status(output: &str) -> (r: Result<(String, i32), ProbeError>)
    ensures
        status_view(r) == status_spec(output@, branch_of(output@)),
        branch_of(output@) is None <==> r == Err::<(String, i32), ProbeError>(ProbeError::BranchNotFound),
{
    let branch = first_capture(BRANCH_PATTERN, BRANCH_GROUP, output);
    status_from_branch(output, branch)
}

/// Turns what the status command gave into a probe result.
pub fn probe_outcome(run: &RunOutcome) -> (r: Result<(String, i32), ProbeError>)
    ensures
        status_view(r) == probe_spec(*run),
{
    match run {
        RunOutcome::Finished(bytes) => {
            let text = decode_lossy(bytes.as_slice());
            parse_status(text.as_str())
        },
        RunOutcome::LaunchFailed => Err(ProbeError::ProcessLaunchError),
        RunOutcome::TimedOut => Err(ProbeError::Timeout),
    }
}

} // verus!
