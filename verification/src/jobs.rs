use vstd::prelude::*;

verus! {

/// What one non-blocking wait for a child process reported.
#[derive(Clone, Copy, PartialEq, Eq, Structural, Debug)]
pub enum ReapEvent {
    /// A terminated child was collected; its process id.
    Reaped(i32),
    /// Children exist, but none has terminated yet.
    NoneReady,
    /// There is no child process at all.
    NoChildren,
}

/// The tracked process ids with every occurrence of `pid` removed, in
/// their original order.
pub open spec fn remove_pid(s: Seq<i32>, pid: i32) -> Seq<i32>
    decreases s.len(),
{
    if s.len() == 0 {
        Seq::empty()
    } else {
        let rest = remove_pid(s.drop_first(), pid);
        if s.first() == pid {
            rest
        } else {
            seq![s.first()] + rest
        }
    }
}

pub proof fn lemma_remove_pid_len(s: Seq<i32>, pid: i32)
    ensures
        remove_pid(s, pid).len() <= s.len(),
    decreases s.len(),
{
    if s.len() == 0 {
    } else {
        lemma_remove_pid_len(s.drop_first(), pid);
    }
}

pub proof fn lemma_remove_pid_contains(s: Seq<i32>, pid: i32, p: i32)
    requires
        remove_pid(s, pid).contains(p),
    ensures
        s.contains(p),
    decreases s.len(),
{
    if s.len() == 0 {
    } else if s.first() == pid {
        lemma_remove_pid_contains(s.drop_first(), pid, p);
        let k = choose|k: int| 0 <= k < s.drop_first().len() && s.drop_first()[k] == p;
        assert(s[k + 1] == p);
    } else {
        let r = seq![s.first()] + remove_pid(s.drop_first(), pid);
        let j = choose|j: int| 0 <= j < r.len() && r[j] == p;
        if j == 0 {
            assert(s[0] == p);
        } else {
            assert(remove_pid(s.drop_first(), pid)[j - 1] == p);
            assert(remove_pid(s.drop_first(), pid).contains(p));
            lemma_remove_pid_contains(s.drop_first(), pid, p);
            let k = choose|k: int| 0 <= k < s.drop_first().len() && s.drop_first()[k] == p;
            assert(s[k + 1] == p);
        }
    }
}

pub proof fn lemma_remove_pid_gone(s: Seq<i32>, pid: i32)
    ensures
        !remove_pid(s, pid).contains(pid),
    decreases s.len(),
{
    if s.len() == 0 {
    } else {
        lemma_remove_pid_gone(s.drop_first(), pid);
        if s.first() != pid {
            let r = seq![s.first()] + remove_pid(s.drop_first(), pid);
            if r.contains(pid) {
                let j = choose|j: int| 0 <= j < r.len() && r[j] == pid;
                if j == 0 {
                    assert(s.first() == pid);
                } else {
                    assert(remove_pid(s.drop_first(), pid)[j - 1] == pid);
                    assert(remove_pid(s.drop_first(), pid).contains(pid));
                }
                assert(false);
            }
        }
    }
}

/// Whether `a` is `b` with zero or more elements deleted, order kept.
pub open spec fn is_subsequence(a: Seq<i32>, b: Seq<i32>) -> bool
    decreases b.len(),
{
    if a.len() == 0 {
        true
    } else if b.len() == 0 {
        false
    } else {
        (a.first() == b.first() && is_subsequence(a.drop_first(), b.drop_first()))
            || is_subsequence(a, b.drop_first())
    }
}

pub proof fn lemma_subseq_refl(a: Seq<i32>)
    ensures
        is_subsequence(a, a),
    decreases a.len(),
{
    if a.len() > 0 {
        lemma_subseq_refl(a.drop_first());
    }
}

pub proof fn lemma_remove_pid_subseq(s: Seq<i32>, pid: i32)
    ensures
        is_subsequence(remove_pid(s, pid), s),
    decreases s.len(),
{
    if s.len() == 0 {
    } else {
        lemma_remove_pid_subseq(s.drop_first(), pid);
        if s.first() == pid {
        } else {
            let r = seq![s.first()] + remove_pid(s.drop_first(), pid);
            assert(r.first() == s.first());
            assert(r.drop_first() =~= remove_pid(s.drop_first(), pid));
        }
    }
}

pub proof fn lemma_subseq_trans(a: Seq<i32>, b: Seq<i32>, c: Seq<i32>)
    requires
        is_subsequence(a, b),
        is_subsequence(b, c),
    ensures
        is_subsequence(a, c),
    decreases c.len(), b.len(),
{
    if a.len() == 0 {
    } else {
        if b.first() == c.first() && is_subsequence(b.drop_first(), c.drop_first()) {
            if a.first() == b.first() && is_subsequence(a.drop_first(), b.drop_first()) {
                lemma_subseq_trans(a.drop_first(), b.drop_first(), c.drop_first());
            } else {
                lemma_subseq_trans(a, b.drop_first(), c.drop_first());
            }
        } else {
            lemma_subseq_trans(a, b, c.drop_first());
        }
    }
}

/// Removing a pid never grows the tracked set, never invents a pid, and
/// leaves no occurrence of the removed pid behind.
pub proof fn lemma_remove_pid(s: Seq<i32>, pid: i32)
    ensures
        remove_pid(s, pid).len() <= s.len(),
        forall|p: i32| remove_pid(s, pid).contains(p) ==> s.contains(p),
        !remove_pid(s, pid).contains(pid),
{
    lemma_remove_pid_len(s, pid);
    lemma_remove_pid_gone(s, pid);
    assert forall|p: i32| remove_pid(s, pid).contains(p) implies s.contains(p) by {
        lemma_remove_pid_contains(s, pid, p);
    }
}

/// Relies on nix::sys::wait::waitpid called for any child with WNOHANG:
/// it returns Ok(WaitStatus::StillAlive) when children exist but none has
/// changed state, Ok of a status carrying the child's pid when one
/// terminated child was collected, and Err (ECHILD) when there is no
/// child to wait for; with WNOHANG it never blocks.
#[verifier::external_body]
fn wait_any_nonblocking() -> (e: ReapEvent) {
    match nix::sys::wait::waitpid(None::<nix::unistd::Pid>, Some(nix::sys::wait::WaitPidFlag::WNOHANG)) {
        Ok(st) => match st.pid() {
            Some(p) => ReapEvent::Reaped(p.as_raw()),
            None => ReapEvent::NoneReady,
        },
        Err(_) => ReapEvent::NoChildren,
    }
}

/// The process ids of backgrounded pipelines that have not been observed
/// to terminate yet. Ownership of a background process passes here when
/// the engine declines to wait on it; the reap sweep drains it.
pub struct JobPool {
    pub jobs: Vec<i32>,
}

impl JobPool {
    /// An empty pool: nothing tracked.
    pub fn new() -> (r: JobPool)
        ensures
            r.jobs@ == Seq::<i32>::empty(),
    {
        JobPool { jobs: Vec::new() }
    }

    /// Takes ownership of a backgrounded process's id.
    pub fn track(&mut self, pid: i32)
        ensures
            final(self).jobs@ == old(self).jobs@.push(pid),
    {
        self.jobs.push(pid);
    }

    /// Applies what one non-blocking wait reported: a collected child
    /// leaves the tracked set and the sweep goes on; any other report
    /// changes nothing and ends the sweep.
    pub fn apply_reap_event(&mut self, e: ReapEvent) -> (more: bool)
        ensures
            match e {
                ReapEvent::Reaped(pid) => final(self).jobs@ == remove_pid(old(self).jobs@, pid)
                    && more,
                ReapEvent::NoneReady => final(self).jobs@ == old(self).jobs@ && !more,
                ReapEvent::NoChildren => final(self).jobs@ == old(self).jobs@ && !more,
            },
    {
        match e {
            ReapEvent::Reaped(pid) => {
                let mut kept: Vec<i32> = Vec::new();
                let ghost s = self.jobs@;
                proof {
                    assert(s.skip(0) =~= s);
                }
                let mut i: usize = 0;
                while i < self.jobs.len()
                    invariant
                        i <= self.jobs.len(),
                        s == self.jobs@,
                        remove_pid(s, pid) == kept@ + remove_pid(s.skip(i as int), pid),
                    decreases self.jobs.len() - i,
                {
                    proof {
                        assert(s.skip(i as int).len() > 0);
                        assert(s.skip(i as int).first() == s[i as int]);
                        assert(s.skip(i as int).drop_first() =~= s.skip(i + 1));
                    }
                    let ghost pre = kept@;
                    let p = self.jobs[i];
                    if p != pid {
                        kept.push(p);
                        proof {
                            assert(pre.push(s[i as int]) + remove_pid(s.skip(i + 1), pid) =~= pre
                                + (seq![s[i as int]] + remove_pid(s.skip(i + 1), pid)));
                        }
                    }
                    i = i + 1;
                }
                proof {
                    assert(s.skip(i as int) =~= Seq::<i32>::empty());
                    assert(kept@ + Seq::<i32>::empty() =~= kept@);
                }
                self.jobs = kept;
                true
            },
            ReapEvent::NoneReady => false,
            ReapEvent::NoChildren => false,
        }
    }

    /// One bounded reap sweep, run once per read-loop iteration: collects
    /// immediately collectible terminated children without blocking, and
    /// stops at the first report that nothing more is ready — also,
    /// without error, when there is no child at all. The drain is bounded:
    /// it polls at most once per tracked job beyond the first call, enough
    /// to collect every tracked zombie in one pass. The tracked set only
    /// shrinks, keeping the survivors in their order, and never gains a
    /// pid it did not hold.
    pub fn reap_finished(&mut self)
        ensures
            is_subsequence(final(self).jobs@, old(self).jobs@),
            final(self).jobs@.len() <= old(self).jobs@.len(),
            forall|p: i32| final(self).jobs@.contains(p) ==> old(self).jobs@.contains(p),
    {
        let mut fuel: usize = self.jobs.len();
        proof {
            lemma_subseq_refl(self.jobs@);
        }
        loop
            invariant
                is_subsequence(self.jobs@, old(self).jobs@),
                self.jobs@.len() <= old(self).jobs@.len(),
                forall|p: i32| self.jobs@.contains(p) ==> old(self).jobs@.contains(p),
            decreases fuel,
        {
            let e = wait_any_nonblocking();
            let ghost before = self.jobs@;
            let more = self.apply_reap_event(e);
            proof {
                match e {
                    ReapEvent::Reaped(pid) => {
                        lemma_remove_pid(before, pid);
                        lemma_remove_pid_subseq(before, pid);
                        lemma_subseq_trans(self.jobs@, before, old(self).jobs@);
                    },
                    _ => (),
                }
            }
            if !more {
                return;
            }
            if fuel == 0 {
                return;
            }
            fuel = fuel - 1;
        }
    }
}

} // verus!
