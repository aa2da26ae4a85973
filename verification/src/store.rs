//! The record store: one table of repositories and one of projects, with
//! the save rules that keep project health in step with repository saves.

use vstd::prelude::*;

use crate::projects;
use crate::projects::count_for_project;
use crate::projects::health_sum_for_project;
use crate::repos;
use crate::repos::given_or;
use crate::score::Score;

verus! {

/// A store failure: the only one an in-memory store can meet is a missing
/// record — a repository or project id (or a referenced project id) that no
/// row carries.
#[derive(Clone, Copy, Debug, PartialEq, Eq, Structural)]
pub enum StoreError {
    /// No record with the requested id exists.
    NotFound,
}

/// Some repository row carries the id.
pub open spec fn has_repo_id(rows: Seq<repos::Model>, id: u64) -> bool {
    exists|i: int| 0 <= i < rows.len() && #[trigger] rows[i].id == id
}

/// Some project row carries the id.
pub open spec fn has_project_id(rows: Seq<projects::Model>, id: u64) -> bool {
    exists|i: int| 0 <= i < rows.len() && #[trigger] rows[i].id == id
}

/// The two record tables and the counters that assign fresh ids.
pub struct Store {
    /// Repository rows, in ascending id order (ids are assigned in
    /// insertion order and never reused).
    pub repos: Vec<repos::Model>,
    /// Project rows, in ascending id order.
    pub projects: Vec<projects::Model>,
    /// The id the next inserted repository will get.
    pub next_repo_id: u64,
    /// The id the next created project will get.
    pub next_project_id: u64,
}

impl Store {
    /// The store's invariant: ids are strictly ascending in each table and
    /// below the corresponding counter, every stored health score is
    /// well-formed, and every repository's project link points at an
    /// existing project row.
    pub open spec fn wf(self) -> bool {
        &&& forall|i: int, j: int|
            #![trigger self.repos@[i].id, self.repos@[j].id]
            0 <= i < j < self.repos@.len() ==> self.repos@[i].id < self.repos@[j].id
        &&& forall|i: int|
            0 <= i < self.repos@.len() ==> #[trigger] self.repos@[i].id < self.next_repo_id
        &&& forall|i: int, j: int|
            #![trigger self.projects@[i].id, self.projects@[j].id]
            0 <= i < j < self.projects@.len() ==> self.projects@[i].id < self.projects@[j].id
        &&& forall|i: int|
            0 <= i < self.projects@.len() ==> #[trigger] self.projects@[i].id
                < self.next_project_id
        &&& forall|i: int|
            0 <= i < self.projects@.len() ==> (#[trigger] self.projects@[i]).health.wf()
        &&& forall|i: int|
            0 <= i < self.repos@.len() ==> has_project_id(
                self.projects@,
                (#[trigger] self.repos@[i]).project_id,
            )
    }

    /// An empty store.
    pub fn new() -> (s: Store)
        ensures
            s.wf(),
            s.repos@ == Seq::<repos::Model>::empty(),
            s.projects@ == Seq::<projects::Model>::empty(),
            s.next_repo_id == 1,
            s.next_project_id == 1,
    {
        Store { repos: Vec::new(), projects: Vec::new(), next_repo_id: 1, next_project_id: 1 }
    }

    /// Index of the repository row with the given id, if any.
    fn find_repo(&self, id: u64) -> (r: Option<usize>)
        ensures
            match r {
                Some(i) => i < self.repos@.len() && self.repos@[i as int].id == id,
                None => !has_repo_id(self.repos@, id),
            },
    {
        let mut i: usize = 0;
        while i < self.repos.len()
            invariant
                i <= self.repos@.len(),
                forall|j: int| 0 <= j < i ==> #[trigger] self.repos@[j].id != id,
            decreases self.repos@.len() - i,
        {
            if self.repos[i].id == id {
                return Some(i);
            }
            i = i + 1;
        }
        None
    }

    /// Index of the project row with the given id, if any.
    fn find_project(&self, id: u64) -> (r: Option<usize>)
        ensures
            match r {
                Some(i) => i < self.projects@.len() && self.projects@[i as int].id == id,
                None => !has_project_id(self.projects@, id),
            },
    {
        let mut i: usize = 0;
        while i < self.projects.len()
            invariant
                i <= self.projects@.len(),
                forall|j: int| 0 <= j < i ==> #[trigger] self.projects@[j].id != id,
            decreases self.projects@.len() - i,
        {
            if self.projects[i].id == id {
                return Some(i);
            }
            i = i + 1;
        }
        None
    }

    /// The repository row with the given id, or not-found.
    pub fn get_repo(&self, id: u64) -> (r: Result<&repos::Model, StoreError>)
        ensures
            (r is Err) == !has_repo_id(self.repos@, id),
            match r {
                Ok(row) => exists|k: int|
                    0 <= k < self.repos@.len() && self.repos@[k].id == id && *row
                        == #[trigger] self.repos@[k],
                Err(e) => e == StoreError::NotFound,
            },
    {
        match self.find_repo(id) {
            Some(i) => Ok(&self.repos[i]),
            None => Err(StoreError::NotFound),
        }
    }

    /// The project row with the given id, or not-found.
    pub fn get_project(&self, id: u64) -> (r: Result<&projects::Model, StoreError>)
        ensures
            (r is Err) == !has_project_id(self.projects@, id),
            match r {
                Ok(row) => exists|k: int|
                    0 <= k < self.projects@.len() && self.projects@[k].id == id && *row
                        == #[trigger] self.projects@[k],
                Err(e) => e == StoreError::NotFound,
            },
    {
        match self.find_project(id) {
            Some(i) => Ok(&self.projects[i]),
            None => Err(StoreError::NotFound),
        }
    }

    /// Create a project row directly: a fresh id, the given name and owner,
    /// health of exactly one hundred (a project starts with no
    /// repositories), and every timestamp set to `now`. Returns the new id.
    pub fn create_project(&mut self, name: String, owner: String, now: u64) -> (id: u64)
        requires
            old(self).wf(),
            old(self).next_project_id < u64::MAX,
        ensures
            final(self).wf(),
            id == old(self).next_project_id,
            final(self).projects@ == old(self).projects@.push(
                (projects::Model {
                    id: old(self).next_project_id,
                    name: name,
                    owner: owner,
                    health: Score { num: 100, den: 1 },
                    last_fetch: now,
                    created_at: now,
                    updated_at: now,
                }),
            ),
            final(self).repos@ == old(self).repos@,
            final(self).next_repo_id == old(self).next_repo_id,
            final(self).next_project_id == old(self).next_project_id + 1,
    {
        let id = self.next_project_id;
        self.next_project_id = id + 1;
        let row = projects::Model {
            id,
            name,
            owner,
            health: Score::hundred(),
            last_fetch: now,
            created_at: now,
            updated_at: now,
        };
        self.projects.push(row);
        proof {
            assert forall|i: int| 0 <= i < self.repos@.len() implies has_project_id(
                self.projects@,
                (#[trigger] self.repos@[i]).project_id,
            ) by {
                assert(has_project_id(old(self).projects@, self.repos@[i].project_id));
                let k = choose|k: int|
                    0 <= k < old(self).projects@.len() && #[trigger] old(self).projects@[k].id
                        == self.repos@[i].project_id;
                assert(self.projects@[k].id == self.repos@[i].project_id);
            }
        }
        id
    }

    /// Recalculate and persist the health of the project with the given
    /// id: take the exact mean of the health scores of the repositories
    /// belonging to it — or one hundred if it has none — write the result
    /// onto the project row, touching no other field and no other row, and
    /// return it. Fails with not-found, leaving the store untouched, when
    /// no project carries the id.
    pub fn recalculate_health(&mut self, project_id: u64) -> (r: Result<Score, StoreError>)
        requires
            old(self).wf(),
        ensures
            final(self).wf(),
            final(self).repos@ == old(self).repos@,
            final(self).next_repo_id == old(self).next_repo_id,
            final(self).next_project_id == old(self).next_project_id,
            (r is Err) == !has_project_id(old(self).projects@, project_id),
            r is Err ==> r == Err::<Score, StoreError>(StoreError::NotFound) && *final(self)
                == *old(self),
            match r {
                Ok(s) => {
                    &&& s.wf()
                    &&& count_for_project(old(self).repos@, project_id) == 0 ==> s == (Score {
                        num: 100,
                        den: 1,
                    })
                    &&& count_for_project(old(self).repos@, project_id) > 0 ==> s.num
                        == health_sum_for_project(old(self).repos@, project_id) && s.den == 60
                        * count_for_project(old(self).repos@, project_id)
                    &&& exists|k: int|
                        {
                            &&& 0 <= k < old(self).projects@.len()
                            &&& #[trigger] old(self).projects@[k].id == project_id
                            &&& final(self).projects@ == old(self).projects@.update(
                                k,
                                (projects::Model { health: s, ..old(self).projects@[k] }),
                            )
                        }
                },
                Err(_) => true,
            },
    {
        let idx = match self.find_project(project_id) {
            None => { return Err(StoreError::NotFound) },
            Some(i) => i,
        };
        let s = self.projects[idx].recalculate_health(&self.repos);
        self.projects[idx].health = s;
        proof {
            let op = old(self).projects@;
            let np = self.projects@;
            assert(np[idx as int] == (projects::Model { health: s, ..op[idx as int] }));
            assert forall|i: int| 0 <= i < np.len() implies #[trigger] np[i].id == op[i].id by {}
            assert forall|i: int| 0 <= i < self.repos@.len() implies has_project_id(
                np,
                (#[trigger] self.repos@[i]).project_id,
            ) by {
                assert(has_project_id(op, self.repos@[i].project_id));
                let k = choose|k: int|
                    0 <= k < op.len() && #[trigger] op[k].id == self.repos@[i].project_id;
                assert(np[k].id == self.repos@[i].project_id);
            }
        }
        Ok(s)
    }

    /// Insert a repository row.
    ///
    /// The row gets a fresh id and `created_at` of `now`. A save that
    /// names no project gets a fresh project of its own, named after the
    /// repository — the project takes the repository's name and owner —
    /// with `last_fetch` of `now`; exactly that one project row is added,
    /// and no other. After the row is stored, the owning project's health
    /// is recalculated, so a fresh project's health is exactly the new
    /// repository's health. A save that names a project no row carries
    /// fails with not-found and leaves the store untouched.
    pub fn insert_repo(&mut self, item: repos::ActiveModel, now: u64) -> (r: Result<
        u64,
        StoreError,
    >)
        requires
            old(self).wf(),
            old(self).next_repo_id < u64::MAX,
            old(self).next_project_id < u64::MAX,
        ensures
            final(self).wf(),
            (r is Err) == (match item.project_id {
                Some(p) => !has_project_id(old(self).projects@, p),
                None => false,
            }),
            r is Err ==> r == Err::<u64, StoreError>(StoreError::NotFound) && *final(self) == *old(
                self,
            ),
            match r {
                Ok(id) => {
                    let pid = given_or(item.project_id, old(self).next_project_id);
                    let row = item.stored(id, pid, now);
                    &&& id == old(self).next_repo_id
                    &&& final(self).next_repo_id == old(self).next_repo_id + 1
                    &&& final(self).repos@ == old(self).repos@.push(row)
                    &&& item.project_id is None ==> {
                        &&& final(self).next_project_id == old(self).next_project_id + 1
                        &&& final(self).projects@ == old(self).projects@.push(
                            (projects::Model {
                                id: old(self).next_project_id,
                                name: item.name,
                                owner: item.owner,
                                health: Score { num: row.spec_health() as u128, den: 60 },
                                last_fetch: now,
                                created_at: now,
                                updated_at: now,
                            }),
                        )
                    }
                    &&& item.project_id matches Some(p) ==> {
                        &&& final(self).next_project_id == old(self).next_project_id
                        &&& exists|k: int|
                            {
                                &&& 0 <= k < old(self).projects@.len()
                                &&& #[trigger] old(self).projects@[k].id == p
                                &&& final(self).projects@ == old(self).projects@.update(
                                    k,
                                    (projects::Model {
                                        health: Score {
                                            num: health_sum_for_project(
                                                final(self).repos@,
                                                p,
                                            ) as u128,
                                            den: (60 * count_for_project(
                                                final(self).repos@,
                                                p,
                                            )) as u128,
                                        },
                                        ..old(self).projects@[k]
                                    }),
                                )
                            }
                    }
                },
                Err(_) => true,
            },
    {
        let pid: u64 = match item.project_id {
            Some(p) => {
                if self.find_project(p).is_none() {
                    return Err(StoreError::NotFound);
                }
                p
            },
            None => self.create_project(item.name.clone(), item.owner.clone(), now),
        };
        let id = self.next_repo_id;
        self.next_repo_id = id + 1;
        let stamped: u64 = match item.updated_at {
            Some(t) => t,
            None => now,
        };
        let row = repos::Model {
            id: id,
            project_id: pid,
            name: item.name,
            owner: item.owner,
            stars: item.stars,
            forks: item.forks,
            issues: item.issues,
            prs: item.prs,
            contributors: item.contributors,
            commits_last_30d: item.commits_last_30d,
            watchers: item.watchers,
            license: item.license,
            last_fetch: item.last_fetch,
            created_at: now,
            updated_at: stamped,
        };
        self.repos.push(row);
        proof {
            assert forall|i: int, j: int|
                #![trigger self.repos@[i].id, self.repos@[j].id]
                0 <= i < j < self.repos@.len() implies self.repos@[i].id < self.repos@[j].id by {
                if j < self.repos@.len() - 1 {
                    assert(old(self).repos@[i].id < old(self).repos@[j].id);
                }
            }
            if item.project_id is None {
                assert(has_project_id(self.projects@, pid)) by {
                    assert(self.projects@[self.projects@.len() - 1].id == pid);
                }
            }
            assert(self.wf());
            // No pre-existing repository can belong to a freshly created
            // project: every stored link resolves to a project row, and
            // all of those carry ids below the fresh one.
            if item.project_id is None {
                assert forall|i: int|
                    0 <= i < old(self).repos@.len() implies #[trigger] old(
                    self,
                ).repos@[i].project_id != pid by {
                    assert(has_project_id(old(self).projects@, old(self).repos@[i].project_id));
                    let k = choose|k: int|
                        0 <= k < old(self).projects@.len() && #[trigger] old(self).projects@[k].id
                            == old(self).repos@[i].project_id;
                    assert(old(self).projects@[k].id < pid);
                }
                crate::projects::lemma_count_sum_absent(old(self).repos@, pid);
            }
            crate::projects::lemma_count_sum_push(old(self).repos@, row, pid);
        }
        let ghost mid = *self;
        let recalculated = self.recalculate_health(pid);
        proof {
            crate::projects::lemma_count_sum_bounds(old(self).repos@, pid);
            assert(has_project_id(mid.projects@, pid));
            assert(recalculated is Ok);
            let s = match recalculated {
                Ok(s) => s,
                Err(_) => Score { num: 100, den: 1 },
            };
            assert(count_for_project(mid.repos@, pid) > 0);
            assert(s == (Score {
                num: health_sum_for_project(mid.repos@, pid) as u128,
                den: (60 * count_for_project(mid.repos@, pid)) as u128,
            }));
            let k = choose|k: int|
                {
                    &&& 0 <= k < mid.projects@.len()
                    &&& #[trigger] mid.projects@[k].id == pid
                    &&& self.projects@ == mid.projects@.update(
                        k,
                        (projects::Model { health: s, ..mid.projects@[k] }),
                    )
                };
            if item.project_id is None {
                assert(k == old(self).projects@.len()) by {
                    if k < old(self).projects@.len() {
                        assert(mid.projects@[k].id == old(self).projects@[k].id);
                    }
                }
                assert(s == (Score { num: row.spec_health() as u128, den: 60 }));
                assert(self.projects@ =~= old(self).projects@.push(
                    (projects::Model {
                        id: old(self).next_project_id,
                        name: item.name,
                        owner: item.owner,
                        health: Score { num: row.spec_health() as u128, den: 60 },
                        last_fetch: now,
                        created_at: now,
                        updated_at: now,
                    }),
                ));
            }
        }
        Ok(id)
    }

    /// Update the repository row with the given id from the save `item`.
    ///
    /// Identity and creation time are kept; the project link is kept where
    /// the save names none; `updated_at` is stamped with `now` unless the
    /// save set it explicitly. After the row is written, the owning
    /// project's health is recalculated and persisted. Fails with
    /// not-found, leaving the store untouched, when no repository carries
    /// the id or the save names a project no row carries.
    pub fn update_repo(&mut self, id: u64, item: repos::ActiveModel, now: u64) -> (r: Result<
        (),
        StoreError,
    >)
        requires
            old(self).wf(),
        ensures
            final(self).wf(),
            final(self).next_repo_id == old(self).next_repo_id,
            final(self).next_project_id == old(self).next_project_id,
            (r is Err) == (!has_repo_id(old(self).repos@, id) || (match item.project_id {
                Some(p) => !has_project_id(old(self).projects@, p),
                None => false,
            })),
            r is Err ==> r == Err::<(), StoreError>(StoreError::NotFound) && *final(self) == *old(
                self,
            ),
            r is Ok ==> exists|j: int|
                {
                    &&& 0 <= j < old(self).repos@.len()
                    &&& #[trigger] old(self).repos@[j].id == id
                    &&& final(self).repos@ == old(self).repos@.update(
                        j,
                        item.applied_to(old(self).repos@[j], now),
                    )
                    &&& exists|k: int|
                        {
                            let pid = given_or(item.project_id, old(self).repos@[j].project_id);
                            &&& 0 <= k < old(self).projects@.len()
                            &&& #[trigger] old(self).projects@[k].id == pid
                            &&& final(self).projects@ == old(self).projects@.update(
                                k,
                                (projects::Model {
                                    health: Score {
                                        num: health_sum_for_project(
                                            final(self).repos@,
                                            pid,
                                        ) as u128,
                                        den: (60 * count_for_project(
                                            final(self).repos@,
                                            pid,
                                        )) as u128,
                                    },
                                    ..old(self).projects@[k]
                                }),
                            )
                        }
                },
    {
        let j = match self.find_repo(id) {
            None => { return Err(StoreError::NotFound) },
            Some(j) => j,
        };
        let pid: u64 = match item.project_id {
            Some(p) => {
                if self.find_project(p).is_none() {
                    return Err(StoreError::NotFound);
                }
                p
            },
            None => self.repos[j].project_id,
        };
        let stamped: u64 = match item.updated_at {
            Some(t) => t,
            None => now,
        };
        let created: u64 = self.repos[j].created_at;
        let row = repos::Model {
            id: id,
            project_id: pid,
            name: item.name,
            owner: item.owner,
            stars: item.stars,
            forks: item.forks,
            issues: item.issues,
            prs: item.prs,
            contributors: item.contributors,
            commits_last_30d: item.commits_last_30d,
            watchers: item.watchers,
            license: item.license,
            last_fetch: item.last_fetch,
            created_at: created,
            updated_at: stamped,
        };
        self.repos[j] = row;
        proof {
            assert forall|a: int, b: int|
                #![trigger self.repos@[a].id, self.repos@[b].id]
                0 <= a < b < self.repos@.len() implies self.repos@[a].id < self.repos@[b].id by {
                assert(old(self).repos@[a].id < old(self).repos@[b].id);
            }
            assert(has_project_id(self.projects@, pid));
            assert(self.wf());
            crate::projects::lemma_count_positive(self.repos@, pid, j as int);
        }
        let _ = self.recalculate_health(pid);
        Ok(())
    }

    /// Delete the repository row with the given id, leaving every other
    /// row — the projects included — untouched, or fail with not-found
    /// when no row carries the id. Deleting a repository does not
    /// recalculate its former project's health; only saves do.
    pub fn delete_repo(&mut self, id: u64) -> (r: Result<(), StoreError>)
        requires
            old(self).wf(),
        ensures
            final(self).wf(),
            final(self).projects@ == old(self).projects@,
            final(self).next_repo_id == old(self).next_repo_id,
            final(self).next_project_id == old(self).next_project_id,
            (r is Err) == !has_repo_id(old(self).repos@, id),
            r is Err ==> r == Err::<(), StoreError>(StoreError::NotFound) && *final(self) == *old(
                self,
            ),
            r is Ok ==> exists|j: int|
                {
                    &&& 0 <= j < old(self).repos@.len()
                    &&& #[trigger] old(self).repos@[j].id == id
                    &&& final(self).repos@ == old(self).repos@.remove(j)
                },
    {
        let j = match self.find_repo(id) {
            None => { return Err(StoreError::NotFound) },
            Some(j) => j,
        };
        self.repos.remove(j);
        Ok(())
    }

    /// All repository rows, newest first — descending id, the order the
    /// listing page shows them in.
    pub fn list_repos(&self) -> (r: Vec<&repos::Model>)
        ensures
            r@.len() == self.repos@.len(),
            forall|i: int|
                0 <= i < r@.len() ==> *(#[trigger] r@[i]) == self.repos@[self.repos@.len() - 1
                    - i],
    {
        let mut out: Vec<&repos::Model> = Vec::new();
        let mut i: usize = self.repos.len();
        while i > 0
            invariant
                i <= self.repos@.len(),
                out@.len() == self.repos@.len() - i,
                forall|k: int|
                    0 <= k < out@.len() ==> *(#[trigger] out@[k]) == self.repos@[self.repos@.len()
                        - 1 - k],
            decreases i,
        {
            i = i - 1;
            out.push(&self.repos[i]);
        }
        out
    }
}

} // verus!
