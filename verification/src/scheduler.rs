use vstd::prelude::*;

verus! {

/// The in-memory registry of live recurring jobs, owned by one long-lived
/// scheduler instance: the set of window ids that currently have a
/// scheduled polling job. The registry is not persisted — after a restart
/// it is rebuilt by the reconciler — and removing a job only prevents
/// future ticks; a tick already in flight runs to completion.
pub struct JobScheduler {
    jobs: Vec<i32>,
}

impl View for JobScheduler {
    type V = Set<i32>;

    closed spec fn view(&self) -> Set<i32> {
        self.jobs@.to_set()
    }
}

impl JobScheduler {
    /// Internal shape: one entry per scheduled window.
    pub closed spec fn inv(self) -> bool {
        self.jobs@.no_duplicates()
    }

    /// An empty registry.
    pub fn new() -> (s: JobScheduler)
        ensures
            s@ == Set::<i32>::empty(),
            s.inv(),
    {
        let s = JobScheduler { jobs: Vec::new() };
        proof {
            assert(s@ =~= Set::<i32>::empty());
        }
        s
    }

    /// Whether a job for the window `post_id` is live.
    pub fn contains_job(&self, post_id: i32) -> (r: bool)
        ensures
            r == self@.contains(post_id),
    {
        let mut i: usize = 0;
        let n = self.jobs.len();
        while i < n
            invariant
                0 <= i <= n,
                n == self.jobs@.len(),
                forall|k: int| 0 <= k < i ==> self.jobs@[k] != post_id,
            decreases n - i,
        {
            if self.jobs[i] == post_id {
                proof {
                    assert(self.jobs@.contains(post_id));
                }
                return true;
            }
            i = i + 1;
        }
        proof {
            assert(!self.jobs@.contains(post_id));
        }
        false
    }

    /// Registers a job for the window `post_id`.
    pub fn add_job(&mut self, post_id: i32)
        requires
            old(self).inv(),
        ensures
            final(self).inv(),
            final(self)@ == old(self)@.insert(post_id),
    {
        if !self.contains_job(post_id) {
            let ghost before = self.jobs@;
            self.jobs.push(post_id);
            proof {
                assert forall|x: i32| self.jobs@.to_set().contains(x) implies before.to_set()
                    .insert(post_id).contains(x) by {
                    let k = choose|k: int| 0 <= k < self.jobs@.len() && self.jobs@[k] == x;
                    if k < before.len() {
                        assert(before[k] == x);
                    }
                }
                assert forall|x: i32| before.to_set().insert(post_id).contains(x) implies self
                    .jobs@.to_set().contains(x) by {
                    if x == post_id {
                        assert(self.jobs@[before.len() as int] == x);
                    } else {
                        let k = choose|k: int| 0 <= k < before.len() && before[k] == x;
                        assert(self.jobs@[k] == x);
                    }
                }
                assert(self.jobs@.to_set() =~= before.to_set().insert(post_id));
                assert(self.jobs@.drop_last() =~= before);
            }
        } else {
            proof {
                assert(self.jobs@.to_set() =~= self.jobs@.to_set().insert(post_id));
            }
        }
    }

    /// Deregisters the job for the window `post_id`, if one is live.
    pub fn remove_job(&mut self, post_id: i32)
        requires
            old(self).inv(),
        ensures
            final(self).inv(),
            final(self)@ == old(self)@.remove(post_id),
    {
        let mut i: usize = 0;
        let n = self.jobs.len();
        while i < n
            invariant
                self.inv(),
                self.jobs@ == old(self).jobs@,
                0 <= i <= n,
                n == self.jobs@.len(),
                forall|k: int| 0 <= k < i ==> self.jobs@[k] != post_id,
            decreases n - i,
        {
            if self.jobs[i] == post_id {
                let ghost before = self.jobs@;
                self.jobs.remove(i);
                proof {
                    assert(forall|k: int|
                        0 <= k < self.jobs@.len() && k != i ==> before.contains(
                            #[trigger] self.jobs@[k],
                        ));
                    assert forall|x: i32| self.jobs@.to_set().contains(x) implies before.to_set()
                        .remove(post_id).contains(x) by {
                        let k = choose|k: int| 0 <= k < self.jobs@.len() && self.jobs@[k] == x;
                        if k < i {
                            assert(before[k] == x);
                        } else {
                            assert(before[k + 1] == x);
                        }
                        assert(x != post_id) by {
                            if k < i {
                                assert(before[k] != post_id);
                            } else {
                                assert(before[k + 1] != post_id) by {
                                    if before[k + 1] == post_id {
                                        assert(before[i as int] == post_id);
                                    }
                                }
                            }
                        }
                    }
                    assert forall|x: i32| before.to_set().remove(post_id).contains(x) implies self
                        .jobs@.to_set().contains(x) by {
                        let k = choose|k: int| 0 <= k < before.len() && before[k] == x;
                        if k < i {
                            assert(self.jobs@[k] == x);
                        } else if k > i {
                            assert(self.jobs@[k - 1] == x);
                        }
                    }
                    assert(self.jobs@.to_set() =~= before.to_set().remove(post_id));
                    assert(self.jobs@.no_duplicates());
                }
                return ;
            }
            i = i + 1;
        }
        proof {
            assert(!self.jobs@.contains(post_id));
            assert(self.jobs@.to_set() =~= self.jobs@.to_set().remove(post_id));
        }
    }
}

} // verus!
