use crate::status::{probe_outcome, probe_spec, ProbeError, RunOutcome};
use vstd::prelude::*;

verus! {

/// Status of one configured repository after a refresh.
#[derive(Debug, Clone, Default)]
pub struct Repo {
    pub name: String,
    /// Current branch; empty where the probe failed.
    pub branch: String,
    /// Pending changes; 0 where the probe failed.
    pub num_changes: i32,
    /// Why the probe failed, if it did.
    pub error: Option<ProbeError>,
}

/// The content of a `Repo`.
pub struct RepoRow {
    pub name: Seq<char>,
    pub branch: Seq<char>,
    pub num_changes: i32,
    pub error: Option<ProbeError>,
}

impl View for Repo {
    type V = RepoRow;

    open spec fn view(&self) -> RepoRow {
        RepoRow { name: self.name@, branch: self.branch@, num_changes: self.num_changes, error: self.error }
    }
}

/// The row that a refresh gives for repository `name` whose status command gave `run`.
pub open spec fn expected_row(name: Seq<char>, run: RunOutcome) -> RepoRow {
    match probe_spec(run) {
        Ok((branch, n)) => RepoRow { name, branch, num_changes: n, error: None },
        Err(e) => RepoRow { name, branch: Seq::empty(), num_changes: 0, error: Some(e) },
    }
}

/// `rows` is what a refresh of `names` gives where the i-th status command gave `runs[i]`:
/// one row per name, in the same order.
pub open spec fn refreshed(names: Seq<String>, runs: Seq<RunOutcome>, rows: Seq<Repo>) -> bool {
    &&& rows.len() == names.len()
    &&& forall|i: int| 0 <= i < rows.len() ==> #[trigger] rows[i]@ == expected_row(names[i]@, runs[i])
}

/// Builds the row of repository `name` from what its status command gave: the
/// branch and change count, or an empty branch, no changes and the error.
pub fn repo_row(name: &String, run: &RunOutcome) -> (r: Repo)
    ensures
        r@ == expected_row(name@, *run),
{
    match probe_outcome(run) {
        Ok((branch, num_changes)) => Repo { name: name.clone(), branch, num_changes, error: None },
        Err(e) => Repo { name: name.clone(), branch: String::new(), num_changes: 0, error: Some(e) },
    }
}

/// Builds the status rows of a refresh, one for each configured name in the
/// same order, where `runs[i]` is what the status command gave in repository
/// `names[i]`. A failed probe gives a row with its error and leaves the other
/// rows as they would be.
pub fn refresh_repos(names: &Vec<String>, runs: &Vec<RunOutcome>) -> (rows: Vec<Repo>)
    requires
        names.len() == runs.len(),
    ensures
        refreshed(names@, runs@, rows@),
        rows.len() == names.len(),
        forall|i: int| 0 <= i < rows.len() ==> #[trigger] rows[i].name@ == names[i]@,
{
    let mut rows: Vec<Repo> = Vec::new();
    for i in 0..names.len()
        invariant
            names.len() == runs.len(),
            rows.len() == i,
            forall|j: int| 0 <= j < i ==> #[trigger] rows[j]@ == expected_row(names[j]@, runs[j]),
    {
        let row = repo_row(&names[i], &runs[i]);
        rows.push(row);
    }
    proof {
        assert forall|i: int| 0 <= i < rows.len() implies #[trigger] rows[i].name@ == names[i]@ by {
            assert(rows[i]@ == expected_row(names[i]@, runs[i]));
        }
    }
    rows
}

/// Two refreshes of the same names whose status commands gave the same
/// outcomes yield rows of equal content.
pub proof fn lemma_refresh_idempotent(
    names: Seq<String>,
    runs: Seq<RunOutcome>,
    first: Seq<Repo>,
    second: Seq<Repo>,
)
    requires
        refreshed(names, runs, first),
        refreshed(names, runs, second),
    ensures
        first.len() == second.len(),
        forall|i: int| 0 <= i < first.len() ==> #[trigger] first[i]@ == second[i]@,
{
    assert forall|i: int| 0 <= i < first.len() implies #[trigger] first[i]@ == second[i]@ by {
        assert(first[i]@ == expected_row(names[i]@, runs[i]));
        assert(second[i]@ == expected_row(names[i]@, runs[i]));
    }
}

/// A refresh row depends on its own repository alone: where the status
/// command of repository `i` gave the same outcome in two refreshes of the same
/// names, row `i` is the same in both, whatever the other repositories gave.
pub proof fn lemma_row_independent(
    names: Seq<String>,
    runs_a: Seq<RunOutcome>,
    runs_b: Seq<RunOutcome>,
    rows_a: Seq<Repo>,
    rows_b: Seq<Repo>,
    i: int,
)
    requires
        refreshed(names, runs_a, rows_a),
        refreshed(names, runs_b, rows_b),
        0 <= i < names.len(),
        runs_a[i] == runs_b[i],
    ensures
        rows_a[i]@ == rows_b[i]@,
        rows_a[i].name@ == names[i]@,
{
    assert(rows_a[i]@ == expected_row(names[i]@, runs_a[i]));
    assert(rows_b[i]@ == expected_row(names[i]@, runs_b[i]));
}

} // verus!
