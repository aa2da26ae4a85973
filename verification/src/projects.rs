//! Project records and the recalculation of a project's aggregate health.

use vstd::prelude::*;

use crate::repos;
use crate::score::Score;

verus! {

/// Number of repositories in `repos` that belong to the project with id
/// `pid`.
pub open spec fn count_for_project(repos: Seq<repos::Model>, pid: u64) -> int
    decreases repos.len(),
{
    if repos.len() == 0 {
        0
    } else {
        count_for_project(repos.drop_last(), pid) + if repos.last().project_id == pid {
            1int
        } else {
            0int
        }
    }
}

/// Sum of the health-score numerators (each over denominator 60) of the
/// repositories in `repos` that belong to the project with id `pid`.
pub open spec fn health_sum_for_project(repos: Seq<repos::Model>, pid: u64) -> int
    decreases repos.len(),
{
    if repos.len() == 0 {
        0
    } else {
        health_sum_for_project(repos.drop_last(), pid) + if repos.last().project_id == pid {
            repos.last().spec_health()
        } else {
            0int
        }
    }
}

/// The count never exceeds the number of rows, and the sum stays within
/// 6000 per counted repository, so a project's mean is always a
/// well-formed score.
pub proof fn lemma_count_sum_bounds(repos: Seq<repos::Model>, pid: u64)
    ensures
        0 <= count_for_project(repos, pid) <= repos.len(),
        0 <= health_sum_for_project(repos, pid) <= 6000 * count_for_project(repos, pid),
    decreases repos.len(),
{
    if repos.len() > 0 {
        lemma_count_sum_bounds(repos.drop_last(), pid);
        if repos.last().project_id == pid {
            let row = repos.last();
            repos::lemma_health_in_range(
                row.commits_last_30d as int,
                row.contributors as int,
                row.stars as int,
                row.prs as int,
                row.issues as int,
            );
        }
    }
}

/// Appending one repository row raises the count and the sum for exactly
/// the project the row belongs to, and for no other.
pub proof fn lemma_count_sum_push(repos: Seq<repos::Model>, row: repos::Model, pid: u64)
    ensures
        count_for_project(repos.push(row), pid) == count_for_project(repos, pid) + if row.project_id
            == pid {
            1int
        } else {
            0int
        },
        health_sum_for_project(repos.push(row), pid) == health_sum_for_project(repos, pid)
            + if row.project_id == pid {
            row.spec_health()
        } else {
            0int
        },
{
    assert(repos.push(row).drop_last() =~= repos);
}

/// A repository list in which no row belongs to `pid` contributes neither
/// count nor sum.
pub proof fn lemma_count_sum_absent(repos: Seq<repos::Model>, pid: u64)
    requires
        forall|i: int| 0 <= i < repos.len() ==> #[trigger] repos[i].project_id != pid,
    ensures
        count_for_project(repos, pid) == 0,
        health_sum_for_project(repos, pid) == 0,
    decreases repos.len(),
{
    if repos.len() > 0 {
        assert(repos.last() == repos[repos.len() - 1]);
        assert(forall|i: int|
            0 <= i < repos.drop_last().len() ==> #[trigger] repos.drop_last()[i].project_id != pid);
        lemma_count_sum_absent(repos.drop_last(), pid);
    }
}

/// A repository list with a row belonging to `pid` counts at least that
/// row.
pub proof fn lemma_count_positive(repos: Seq<repos::Model>, pid: u64, j: int)
    requires
        0 <= j < repos.len(),
        repos[j].project_id == pid,
    ensures
        count_for_project(repos, pid) >= 1,
    decreases repos.len(),
{
    lemma_count_sum_bounds(repos.drop_last(), pid);
    if j < repos.len() - 1 {
        lemma_count_positive(repos.drop_last(), pid, j);
    }
}

/// A project row: a named group of repositories carrying their aggregate
/// health. Timestamps are seconds.
#[derive(Clone, Debug)]
pub struct Model {
    /// Identity assigned by the store.
    pub id: u64,
    /// Project name.
    pub name: String,
    /// Project owner.
    pub owner: String,
    /// Aggregate health: the exact mean of the owned repositories' health
    /// scores, or one hundred while the project owns none.
    pub health: Score,
    /// When the project's repositories were last fetched.
    pub last_fetch: u64,
    /// When the row was created.
    pub created_at: u64,
    /// When the row was last written.
    pub updated_at: u64,
}

impl Model {
    /// Recalculate this project's health from the full repository table.
    ///
    /// The result is the arithmetic mean of the health scores of the
    /// repositories whose `project_id` is this project's id — exactly, as
    /// the rational `sum / (60 * n)` for `n` owned repositories — or
    /// exactly one hundred when there are none.
    pub fn recalculate_health(&self, repos: &Vec<repos::Model>) -> (s: Score)
        ensures
            s.wf(),
            count_for_project(repos@, self.id) == 0 ==> s == (Score { num: 100, den: 1 }),
            count_for_project(repos@, self.id) > 0 ==> s.num == health_sum_for_project(
                repos@,
                self.id,
            ) && s.den == 60 * count_for_project(repos@, self.id),
    {
        let mut sum: u128 = 0;
        let mut count: u128 = 0;
        let mut idx: usize = 0;
        while idx < repos.len()
            invariant
                idx <= repos.len(),
                count == count_for_project(repos@.take(idx as int), self.id),
                sum == health_sum_for_project(repos@.take(idx as int), self.id),
                count <= idx,
                sum <= 6000 * count,
            decreases repos.len() - idx,
        {
            let row = &repos[idx];
            proof {
                assert(repos@.take(idx as int + 1).drop_last() =~= repos@.take(idx as int));
                assert(repos@.take(idx as int + 1).last() == repos@[idx as int]);
            }
            if row.project_id == self.id {
                let h = row.health();
                sum = sum + h.num;
                count = count + 1;
            }
            idx = idx + 1;
        }
        proof {
            assert(repos@.take(repos@.len() as int) =~= repos@);
            lemma_count_sum_bounds(repos@, self.id);
        }
        if count == 0 {
            Score { num: 100, den: 1 }
        } else {
            Score { num: sum, den: 60 * count }
        }
    }
}

} // verus!
