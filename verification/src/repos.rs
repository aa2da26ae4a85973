//! Repository records and the per-repository health score.

use vstd::prelude::*;

use crate::score::Score;

verus! {

/// `x` capped at `cap`: the smaller of the two.
pub open spec fn min_cap(x: int, cap: int) -> int {
    if x <= cap {
        x
    } else {
        cap
    }
}

/// Numerator, over denominator 60, of the health score of a repository with
/// the given metrics.
///
/// The score is a weighted blend of four factors, each clamped to at most
/// one:
///
/// - activity    = min(commits / 30, 1),            weight 0.35
/// - community   = min(contributors / 10, 1),       weight 0.25
/// - adoption    = min(stars / 100, 1),             weight 0.15
/// - maintenance = min(prs / 10 * (1 - min(issues / 50, 1)), 1), weight 0.25
///
/// scaled by one hundred. Over the common denominator 60 the weighted terms
/// become 70, 150, 9 and 3 times the clamped integer quantities below, so
/// the whole score is the integer returned here divided by 60, exactly.
pub open spec fn spec_health_num(
    commits: int,
    contributors: int,
    stars: int,
    prs: int,
    issues: int,
) -> int {
    70 * min_cap(commits, 30) + 150 * min_cap(contributors, 10) + 9 * min_cap(stars, 100) + 3
        * min_cap(prs * (50 - min_cap(issues, 50)), 500)
}

/// A tracked repository row: its identity, its project link, and the
/// metrics last fetched for it. Every integer metric is non-negative by
/// type; timestamps are seconds.
#[derive(Clone, Debug)]
pub struct Model {
    /// Identity assigned by the store.
    pub id: u64,
    /// The owning project; every stored repository is linked to one.
    pub project_id: u64,
    /// Repository name.
    pub name: String,
    /// Repository owner login.
    pub owner: String,
    /// Star count.
    pub stars: u32,
    /// Fork count.
    pub forks: u32,
    /// Open issue count.
    pub issues: u32,
    /// Open pull request count.
    pub prs: u32,
    /// Contributor count.
    pub contributors: u32,
    /// Commits over the last thirty days.
    pub commits_last_30d: u32,
    /// Watcher count.
    pub watchers: u32,
    /// License name, if the repository declares one.
    pub license: Option<String>,
    /// When the metrics were last fetched.
    pub last_fetch: u64,
    /// When the row was created.
    pub created_at: u64,
    /// When the row was last written.
    pub updated_at: u64,
}

/// The explicitly given value, or the fallback where none was given.
pub open spec fn given_or(given: Option<u64>, fallback: u64) -> u64 {
    match given {
        Some(v) => v,
        None => fallback,
    }
}

/// A repository row as handed to the store for saving: the fields a save
/// provides, before the store assigns identity and timestamps.
///
/// A `project_id` of `None` asks the store to create a fresh project for
/// the repository on insert, and to keep the present link on update. An
/// `updated_at` of `None` lets the store stamp the save time itself, as a
/// save normally should.
#[derive(Clone, Debug)]
pub struct ActiveModel {
    /// The owning project, where the save names one.
    pub project_id: Option<u64>,
    /// Repository name.
    pub name: String,
    /// Repository owner login.
    pub owner: String,
    /// Star count.
    pub stars: u32,
    /// Fork count.
    pub forks: u32,
    /// Open issue count.
    pub issues: u32,
    /// Open pull request count.
    pub prs: u32,
    /// Contributor count.
    pub contributors: u32,
    /// Commits over the last thirty days.
    pub commits_last_30d: u32,
    /// Watcher count.
    pub watchers: u32,
    /// License name, if any.
    pub license: Option<String>,
    /// When the metrics were fetched.
    pub last_fetch: u64,
    /// An explicit last-written time, where the caller sets one.
    pub updated_at: Option<u64>,
}

impl ActiveModel {
    /// The repository row an insert of this save produces once the store
    /// has assigned the identity `id`, the project link `pid` and the save
    /// time `now`.
    pub open spec fn stored(self, id: u64, pid: u64, now: u64) -> Model {
        Model {
            id: id,
            project_id: pid,
            name: self.name,
            owner: self.owner,
            stars: self.stars,
            forks: self.forks,
            issues: self.issues,
            prs: self.prs,
            contributors: self.contributors,
            commits_last_30d: self.commits_last_30d,
            watchers: self.watchers,
            license: self.license,
            last_fetch: self.last_fetch,
            created_at: now,
            updated_at: given_or(self.updated_at, now),
        }
    }

    /// The row an update with this save produces from the existing row
    /// `current`: identity and creation time are kept, the project link is
    /// kept where the save names none, and `updated_at` is stamped with
    /// the save time `now` unless the save set it explicitly.
    pub open spec fn applied_to(self, current: Model, now: u64) -> Model {
        Model {
            id: current.id,
            project_id: given_or(self.project_id, current.project_id),
            name: self.name,
            owner: self.owner,
            stars: self.stars,
            forks: self.forks,
            issues: self.issues,
            prs: self.prs,
            contributors: self.contributors,
            commits_last_30d: self.commits_last_30d,
            watchers: self.watchers,
            license: self.license,
            last_fetch: self.last_fetch,
            created_at: current.created_at,
            updated_at: given_or(self.updated_at, now),
        }
    }
}

/// The repository form's fields, as the create and edit pages submit them:
/// every metric and the project link are always present.
#[derive(Clone, Debug)]
pub struct Params {
    /// The owning project.
    pub project_id: u64,
    /// Repository name.
    pub name: String,
    /// Repository owner login.
    pub owner: String,
    /// Star count.
    pub stars: u32,
    /// Fork count.
    pub forks: u32,
    /// Open issue count.
    pub issues: u32,
    /// Open pull request count.
    pub prs: u32,
    /// Contributor count.
    pub contributors: u32,
    /// Commits over the last thirty days.
    pub commits_last_30d: u32,
    /// Watcher count.
    pub watchers: u32,
    /// License name, if any.
    pub license: Option<String>,
    /// When the metrics were fetched.
    pub last_fetch: u64,
}

impl Params {
    /// Write every form field onto the save `item`, naming the form's
    /// project link. The form never sets `updated_at`, so that field is
    /// left as it was and an update save stamps the save time itself.
    pub fn update(&self, item: &mut ActiveModel)
        ensures
            *final(item) == (ActiveModel {
                project_id: Some(self.project_id),
                name: self.name,
                owner: self.owner,
                stars: self.stars,
                forks: self.forks,
                issues: self.issues,
                prs: self.prs,
                contributors: self.contributors,
                commits_last_30d: self.commits_last_30d,
                watchers: self.watchers,
                license: self.license,
                last_fetch: self.last_fetch,
                updated_at: old(item).updated_at,
            }),
    {
        item.project_id = Some(self.project_id);
        item.name = self.name.clone();
        item.owner = self.owner.clone();
        item.stars = self.stars;
        item.forks = self.forks;
        item.issues = self.issues;
        item.prs = self.prs;
        item.contributors = self.contributors;
        item.commits_last_30d = self.commits_last_30d;
        item.watchers = self.watchers;
        item.license = match &self.license {
            Some(l) => Some(l.clone()),
            None => None,
        };
        item.last_fetch = self.last_fetch;
    }
}

/// The fields of a fetched GitHub repository that the fetch operation
/// reads, reduced to plain values. Counts the response omits arrive as
/// `None`.
#[derive(Clone, Debug)]
pub struct GithubRepo {
    /// Repository name.
    pub name: String,
    /// Owner login, where the response carries one.
    pub owner_login: Option<String>,
    /// Star count, where the response carries one.
    pub stargazers_count: Option<u32>,
    /// Fork count, where the response carries one.
    pub forks_count: Option<u32>,
    /// Open issue count, where the response carries one.
    pub open_issues_count: Option<u32>,
    /// Watcher count, where the response carries one.
    pub watchers_count: Option<u32>,
    /// License name, where the repository declares one.
    pub license_name: Option<String>,
}

/// Build the save for a fetched repository from its metadata and the
/// separately counted open pull requests, contributors and commits of the
/// last thirty days.
///
/// Missing counts default to zero, a missing owner login to the empty
/// string, a missing license to no license. The save names no project —
/// inserting it creates one — and no explicit `updated_at`; `last_fetch`
/// is stamped with the fetch time `now`.
pub fn build_active_model(
    gh_repo: GithubRepo,
    prs: u32,
    contributors: u32,
    commits_last_30d: u32,
    now: u64,
) -> (item: ActiveModel)
    ensures
        item.project_id is None,
        item.name == gh_repo.name,
        match gh_repo.owner_login {
            Some(l) => item.owner == l,
            None => item.owner@ == Seq::<char>::empty(),
        },
        item.stars == (match gh_repo.stargazers_count {
            Some(n) => n,
            None => 0u32,
        }),
        item.forks == (match gh_repo.forks_count {
            Some(n) => n,
            None => 0u32,
        }),
        item.issues == (match gh_repo.open_issues_count {
            Some(n) => n,
            None => 0u32,
        }),
        item.watchers == (match gh_repo.watchers_count {
            Some(n) => n,
            None => 0u32,
        }),
        item.prs == prs,
        item.contributors == contributors,
        item.commits_last_30d == commits_last_30d,
        item.license == gh_repo.license_name,
        item.last_fetch == now,
        item.updated_at is None,
{
    let owner: String = match gh_repo.owner_login {
        Some(l) => l,
        None => String::new(),
    };
    ActiveModel {
        project_id: None,
        name: gh_repo.name,
        owner: owner,
        stars: match gh_repo.stargazers_count {
            Some(n) => n,
            None => 0,
        },
        forks: match gh_repo.forks_count {
            Some(n) => n,
            None => 0,
        },
        issues: match gh_repo.open_issues_count {
            Some(n) => n,
            None => 0,
        },
        prs: prs,
        contributors: contributors,
        commits_last_30d: commits_last_30d,
        watchers: match gh_repo.watchers_count {
            Some(n) => n,
            None => 0,
        },
        license: gh_repo.license_name,
        last_fetch: now,
        updated_at: None,
    }
}

impl Model {
    /// Numerator, over denominator 60, of this repository's health score.
    pub open spec fn spec_health(self) -> int {
        spec_health_num(
            self.commits_last_30d as int,
            self.contributors as int,
            self.stars as int,
            self.prs as int,
            self.issues as int,
        )
    }

    /// The health score of this repository: exactly
    /// `spec_health_num(..) / 60`, a value between zero and one hundred.
    pub fn health(&self) -> (s: Score)
        ensures
            s.den == 60,
            s.num == self.spec_health(),
            s.wf(),
    {
        let commits: u64 = if self.commits_last_30d > 30 {
            30
        } else {
            self.commits_last_30d as u64
        };
        let contributors: u64 = if self.contributors > 10 {
            10
        } else {
            self.contributors as u64
        };
        let stars: u64 = if self.stars > 100 {
            100
        } else {
            self.stars as u64
        };
        let capped_issues: u64 = if self.issues > 50 {
            50
        } else {
            self.issues as u64
        };
        let backlog_room: u64 = 50 - capped_issues;
        assert((self.prs as u64) * backlog_room <= 4294967295u64 * 50) by (nonlinear_arith)
            requires
                self.prs as u64 <= 4294967295u64,
                backlog_room <= 50,
        ;
        let raw_maintenance: u64 = (self.prs as u64) * backlog_room;
        let maintenance: u64 = if raw_maintenance > 500 {
            500
        } else {
            raw_maintenance
        };
        let num: u64 = 70 * commits + 150 * contributors + 9 * stars + 3 * maintenance;
        proof {
            lemma_health_in_range(
                self.commits_last_30d as int,
                self.contributors as int,
                self.stars as int,
                self.prs as int,
                self.issues as int,
            );
        }
        Score { num: num as u128, den: 60 }
    }
}

/// For all non-negative metrics the health score lies between zero and one
/// hundred: its numerator over denominator 60 lies between 0 and 6000.
pub proof fn lemma_health_in_range(
    commits: int,
    contributors: int,
    stars: int,
    prs: int,
    issues: int,
)
    requires
        commits >= 0,
        contributors >= 0,
        stars >= 0,
        prs >= 0,
        issues >= 0,
    ensures
        0 <= spec_health_num(commits, contributors, stars, prs, issues) <= 6000,
{
    assert(0 <= prs * (50 - min_cap(issues, 50))) by (nonlinear_arith)
        requires
            prs >= 0,
            issues >= 0,
    ;
}

/// The health score never falls when a repository gains commits,
/// contributors, stars or open pull requests, and never rises when it gains
/// issues: with every other metric held fixed, more of a favourable metric
/// (or fewer issues) gives a score at least as high.
pub proof fn lemma_health_monotone(
    commits_lo: int,
    commits_hi: int,
    contributors_lo: int,
    contributors_hi: int,
    stars_lo: int,
    stars_hi: int,
    prs_lo: int,
    prs_hi: int,
    issues_hi: int,
    issues_lo: int,
)
    requires
        0 <= commits_lo <= commits_hi,
        0 <= contributors_lo <= contributors_hi,
        0 <= stars_lo <= stars_hi,
        0 <= prs_lo <= prs_hi,
        0 <= issues_lo <= issues_hi,
    ensures
        spec_health_num(commits_lo, contributors_lo, stars_lo, prs_lo, issues_hi)
            <= spec_health_num(commits_hi, contributors_hi, stars_hi, prs_hi, issues_lo),
{
    let room_lo = 50 - min_cap(issues_hi, 50);
    let room_hi = 50 - min_cap(issues_lo, 50);
    assert(prs_lo * room_lo <= prs_hi * room_hi) by (nonlinear_arith)
        requires
            0 <= prs_lo <= prs_hi,
            0 <= room_lo <= room_hi,
    ;
}

} // verus!
