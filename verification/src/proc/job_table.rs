use vstd::prelude::*;

use crate::error::ShellError;
use crate::proc::handle_status;
use crate::proc::job::Job;
use crate::proc::job::job_stepped;
use crate::sys::print_line;
use vstd::std_specs::vec::vec_index_mut;

verus! {

/// The number of occupied slots of `t` from index `i` on.
pub open spec fn occ_from(t: Seq<Option<Job>>, i: int) -> int
    decreases t.len() - i,
{
    if i < 0 || i >= t.len() {
        0
    } else {
        (if t[i] is Some {
            1int
        } else {
            0int
        }) + occ_from(t, i + 1)
    }
}

/// The number of occupied slots of `t`.
pub open spec fn occupied(t: Seq<Option<Job>>) -> int {
    occ_from(t, 0)
}

/// The lowest free slot index of `t` from `i` on, or the length of `t`
/// when every slot from `i` on is occupied.
pub open spec fn lowest_free_from(t: Seq<Option<Job>>, i: int) -> int
    decreases t.len() - i,
{
    if i >= t.len() {
        t.len() as int
    } else if t[i] is None {
        i
    } else {
        lowest_free_from(t, i + 1)
    }
}

/// The lowest free slot index of `t`, or its length when `t` is full.
pub open spec fn lowest_free(t: Seq<Option<Job>>) -> int {
    lowest_free_from(t, 0)
}

/// A slot either is free or holds a well-formed job carrying the slot's
/// 1-based id.
pub open spec fn slot_ok(s: Option<Job>, i: int) -> bool {
    match s {
        Some(j) => j.id == i + 1 && j.wf(),
        None => true,
    }
}

/// A slot holds no finished job.
pub open spec fn slot_live(s: Option<Job>) -> bool {
    match s {
        Some(j) => !j.last_status.spec_finished(),
        None => true,
    }
}

/// A slot holds a finished job.
pub open spec fn slot_finished(s: Option<Job>) -> bool {
    match s {
        Some(j) => j.last_status.spec_finished(),
        None => false,
    }
}

/// The slot is free, or every member of its job is already terminal, so a
/// maintenance pass over it issues no wait call.
pub open spec fn slot_members_finished(s: Option<Job>) -> bool {
    match s {
        Some(j) => forall|k: int|
            0 <= k < j.processes@.len() ==> handle_status(
                j.processes@[k],
            ).status.spec_finished(),
        None => true,
    }
}

proof fn lemma_occ_bounds(t: Seq<Option<Job>>, i: int)
    requires
        0 <= i <= t.len(),
    ensures
        0 <= occ_from(t, i) <= t.len() - i,
    decreases t.len() - i,
{
    if i < t.len() {
        lemma_occ_bounds(t, i + 1);
    }
}

proof fn lemma_occ_set(t: Seq<Option<Job>>, k: int, v: Option<Job>, i: int)
    requires
        0 <= i <= t.len(),
        0 <= k < t.len(),
    ensures
        occ_from(t.update(k, v), i) == occ_from(t, i) + if i <= k {
            (if v is Some {
                1int
            } else {
                0int
            }) - (if t[k] is Some {
                1int
            } else {
                0int
            })
        } else {
            0int
        },
    decreases t.len() - i,
{
    if i < t.len() {
        lemma_occ_set(t, k, v, i + 1);
    }
}

proof fn lemma_occ_push(t: Seq<Option<Job>>, v: Option<Job>, i: int)
    requires
        0 <= i <= t.len(),
    ensures
        occ_from(t.push(v), i) == occ_from(t, i) + if v is Some {
            1int
        } else {
            0int
        },
    decreases t.len() - i,
{
    if i < t.len() {
        lemma_occ_push(t, v, i + 1);
    } else {
        assert(occ_from(t.push(v), t.len() as int) == (if v is Some {
            1int
        } else {
            0int
        }) + occ_from(t.push(v), t.len() as int + 1));
    }
}

/// A full suffix (every slot occupied) has no free slot.
proof fn lemma_full_no_free(t: Seq<Option<Job>>, i: int)
    requires
        0 <= i <= t.len(),
        occ_from(t, i) == t.len() - i,
    ensures
        lowest_free_from(t, i) == t.len(),
    decreases t.len() - i,
{
    if i < t.len() {
        lemma_occ_bounds(t, i + 1);
        assert(t[i] is Some);
        lemma_full_no_free(t, i + 1);
    }
}

/// An occupied slot at or after `i` makes the suffix count positive.
proof fn lemma_occ_pos(t: Seq<Option<Job>>, i: int, k: int)
    requires
        0 <= i <= k < t.len(),
        t[k] is Some,
    ensures
        occ_from(t, i) >= 1,
    decreases k - i,
{
    lemma_occ_bounds(t, i + 1);
    if i < k {
        lemma_occ_pos(t, i + 1, k);
    }
}

/// What adding a job does: it lands in the lowest free slot (or a new one
/// at the end of a full table), carries that slot's 1-based id, and every
/// other slot stays as it was.
pub open spec fn add_post(pre: JobTable, post: JobTable, job: Job) -> bool {
    let t0 = pre.table@;
    let k = lowest_free(t0);
    &&& post.size == pre.size + 1
    &&& post.table@.len() == (if k == t0.len() {
        t0.len() as int + 1
    } else {
        t0.len() as int
    })
    &&& post.table@[k] == Some(Job { id: (k + 1) as usize, ..job })
    &&& forall|i: int| 0 <= i < t0.len() && i != k ==> post.table@[i] == t0[i]
}

/// The id-reuse law: when the slots below `k` are all occupied and slot
/// `k` is free — as after removing job `k + 1` from a densely filled
/// table — the next added job lands in slot `k` and takes id `k + 1`,
/// not a fresh id at the end.
pub proof fn lemma_freed_slot_is_reused(t: Seq<Option<Job>>, k: int)
    requires
        0 <= k < t.len(),
        forall|j: int| 0 <= j < k ==> t[j] is Some,
        t[k] is None,
    ensures
        lowest_free(t) == k,
{
    lemma_lowest_free_from_scan(t, 0, k);
}

/// An id is never reassigned while its job is still there: the slot a new
/// job lands in is a free one (or a fresh slot past the end).
pub proof fn lemma_added_slot_was_free(t: Seq<Option<Job>>)
    ensures
        lowest_free(t) < t.len() ==> t[lowest_free(t)] is None,
{
    lemma_lowest_free_lands_free(t, 0);
}

proof fn lemma_lowest_free_lands_free(t: Seq<Option<Job>>, i: int)
    requires
        0 <= i <= t.len(),
    ensures
        lowest_free_from(t, i) < t.len() ==> t[lowest_free_from(t, i)] is None,
    decreases t.len() - i,
{
    if i < t.len() && !(t[i] is None) {
        lemma_lowest_free_lands_free(t, i + 1);
    }
}

proof fn lemma_lowest_free_from_scan(t: Seq<Option<Job>>, i: int, k: int)
    requires
        0 <= i <= k < t.len(),
        forall|j: int| i <= j < k ==> t[j] is Some,
        t[k] is None,
    ensures
        lowest_free_from(t, i) == k,
    decreases k - i,
{
    if i < k {
        lemma_lowest_free_from_scan(t, i + 1, k);
    }
}

/// The shell-wide registry of jobs. Slot `i` holds the job with id `i + 1`;
/// ids of removed jobs are reused: a new job takes the lowest free slot.
#[derive(Debug)]
pub struct JobTable {
    pub table: Vec<Option<Job>>,
    pub size: usize,
}

impl Default for JobTable {
    /// An empty table.
    fn default() -> (r: Self)
        ensures
            r.table@.len() == 0,
            r.size == 0,
            r.wf(),
    {
        JobTable { table: Vec::new(), size: 0 }
    }
}

impl JobTable {
    /// Structural invariant: `size` counts the occupied slots, and each
    /// occupied slot holds a well-formed job with the slot's id.
    pub open spec fn wf(self) -> bool {
        &&& self.size as int == occupied(self.table@)
        &&& forall|i: int| 0 <= i < self.table@.len() ==> slot_ok(self.table@[i], i)
    }

    /// Registers a job: it takes the lowest free slot's 1-based id (a full
    /// table grows by one slot).
    pub fn add_job(&mut self, job: Job)
        requires
            old(self).wf(),
            job.wf(),
            old(self).size < usize::MAX,
        ensures
            final(self).wf(),
            add_post(*old(self), *final(self), job),
    {
        let mut job = job;
        let n = self.table.len();
        proof {
            lemma_occ_bounds(self.table@, 0);
        }
        if self.size >= n {
            proof {
                lemma_full_no_free(self.table@, 0);
            }
            job.id = self.size + 1;
            let ghost t0 = self.table@;
            self.table.push(Some(job));
            proof {
                lemma_occ_push(t0, self.table@[n as int], 0);
            }
        } else {
            let mut i: usize = 0;
            loop
                invariant
                    i <= n,
                    n == self.table@.len(),
                    self.wf(),
                    self.size < n,
                    forall|k: int| 0 <= k < i ==> self.table@[k] is Some,
                    lowest_free_from(self.table@, i as int) == lowest_free(self.table@),
                ensures
                    i < n,
                    n == self.table@.len(),
                    self.table@[i as int] is None,
                    i as int == lowest_free(self.table@),
                decreases n - i,
            {
                if i >= n {
                    proof {
                        assert(occ_from(self.table@, 0) == self.table@.len() - 0) by {
                            lemma_all_some_count(self.table@, 0);
                        }
                    }
                    break ;
                }
                let free = match &self.table[i] {
                    Some(_) => false,
                    None => true,
                };
                if free {
                    break ;
                }
                i += 1;
            }
            job.id = i + 1;
            let ghost t0 = self.table@;
            let slot = vec_index_mut(&mut self.table, i);
            *slot = Some(job);
            proof {
                lemma_occ_set(t0, i as int, self.table@[i as int], 0);
            }
        }
        self.size += 1;
    }

    /// Clears the slot of job `id` (1-based). An id that names no occupied
    /// slot is reported — out of bounds at 0 or past the capacity, not
    /// found on a free slot — and the table is then unchanged; removal
    /// never panics.
    pub fn remove_job(&mut self, id: usize) -> (r: Result<(), ShellError>)
        requires
            old(self).wf(),
        ensures
            final(self).wf(),
            r is Err <==> (id == 0 || id > old(self).table@.len() || old(self).table@[id
                - 1] is None),
            r is Err ==> *final(self) == *old(self),
            r matches Err(e) ==> e == (if id == 0 || id > old(self).table@.len() {
                ShellError::JobIndexOutOfBounds
            } else {
                ShellError::JobNotFound
            }),
            r is Ok ==> final(self).table@ == old(self).table@.update(id - 1, None) && final(self).size == old(self).size - 1,
    {
        if id == 0 || id > self.table.len() {
            return Err(ShellError::JobIndexOutOfBounds);
        }
        let occupied_slot = match &self.table[id - 1] {
            Some(_) => true,
            None => false,
        };
        if !occupied_slot {
            return Err(ShellError::JobNotFound);
        }
        proof {
            lemma_occ_pos(self.table@, 0, id - 1);
        }
        let ghost t0 = self.table@;
        let slot = vec_index_mut(&mut self.table, id - 1);
        *slot = None;
        proof {
            lemma_occ_set(t0, id - 1, self.table@[id - 1], 0);
        }
        self.size -= 1;
        Ok(())
    }

    /// The number of jobs the table holds.
    pub fn size(&self) -> (r: usize)
        ensures
            r == self.size,
    {
        self.size
    }

    /// Advances every job with a non-blocking wait pass, then removes the
    /// jobs that reached a terminal state — after the sweep, never while
    /// iterating. On success every remaining job is the advanced value of
    /// the job its slot held, still live; a cleared slot held a job whose
    /// advanced value was terminal. A table whose jobs are all already
    /// terminal issues no wait call, so the pass then cannot fail and
    /// leaves the table empty. A failed pass removes nothing.
    pub fn update(&mut self) -> (r: Result<(), ShellError>)
        requires
            old(self).wf(),
        ensures
            final(self).wf(),
            final(self).table@.len() == old(self).table@.len(),
            forall|i: int|
                0 <= i < final(self).table@.len() && final(self).table@[i] is Some ==> old(self).table@[i] is Some,
            r is Ok ==> forall|i: int|
                0 <= i < final(self).table@.len() ==> slot_live(final(self).table@[i]),
            r is Err ==> final(self).size == old(self).size && (forall|i: int|
                0 <= i < final(self).table@.len() ==> (final(self).table@[i] is Some) == (old(
                    self,
                ).table@[i] is Some)),
            (forall|i: int|
                0 <= i < old(self).table@.len() ==> slot_members_finished(
                    old(self).table@[i],
                )) ==> r is Ok,
            r is Ok ==> forall|i: int|
                #![trigger final(self).table@[i]]
                0 <= i < final(self).table@.len() ==> (final(self).table@[i] matches Some(j1)
                    ==> (old(self).table@[i] matches Some(j0) && job_stepped(j0, j1))),
            r is Ok ==> forall|i: int|
                #![trigger old(self).table@[i]]
                0 <= i < old(self).table@.len() ==> (old(self).table@[i] matches Some(j0) ==> (
                final(self).table@[i] is None ==> exists|j1: Job|
                    #[trigger] job_stepped(j0, j1) && j1.last_status.spec_finished())),
    {
        let mut to_remove: Vec<usize> = Vec::new();
        let n = self.table.len();
        let mut i: usize = 0;
        while i < n
            invariant
                i <= n,
                n == self.table@.len(),
                n == old(self).table@.len(),
                self.wf(),
                self.size == old(self).size,
                forall|k: int|
                    0 <= k < n ==> (self.table@[k] is Some) == (old(self).table@[k] is Some),
                forall|k: int| i <= k < n ==> self.table@[k] == old(self).table@[k],
                forall|k: int|
                    #![trigger self.table@[k]]
                    0 <= k < i ==> (self.table@[k] matches Some(j1) ==> (old(self).table@[k]
                        matches Some(j0) && job_stepped(j0, j1))),
                forall|m: int|
                    0 <= m < to_remove@.len() ==> 1 <= to_remove@[m] && to_remove@[m] <= i
                        && slot_finished(self.table@[to_remove@[m] - 1]),
                forall|m1: int, m2: int|
                    0 <= m1 < m2 < to_remove@.len() ==> to_remove@[m1] < to_remove@[m2],
                forall|k: int|
                    0 <= k < i && slot_finished(self.table@[k]) ==> to_remove@.contains(
                        (k + 1) as usize,
                    ),
            decreases n - i,
        {
            let mut finished_id: Option<usize> = None;
            let mut step_err: Option<ShellError> = None;
            let ghost t_before = self.table@;
            let slot = vec_index_mut(&mut self.table, i);
            match slot {
                Some(job) => {
                    match job.update(false) {
                        Ok(_) => {
                            if job.last_status.is_finished() {
                                finished_id = Some(job.id);
                            }
                        },
                        Err(e) => {
                            step_err = Some(e);
                        },
                    }
                },
                None => {},
            }
            proof {
                lemma_occ_set(t_before, i as int, self.table@[i as int], 0);
            }
            match step_err {
                Some(e) => {
                    return Err(e);
                },
                None => {},
            }
            match finished_id {
                Some(fid) => {
                    let ghost tr0 = to_remove@;
                    to_remove.push(fid);
                    proof {
                        assert(to_remove@[to_remove@.len() - 1] == fid);
                        assert forall|x: usize| tr0.contains(x) implies to_remove@.contains(
                            x,
                        ) by {
                            let q = choose|q: int| 0 <= q < tr0.len() && tr0[q] == x;
                            assert(to_remove@[q] == x);
                        }
                    }
                },
                None => {},
            }
            i += 1;
        }
        let r = to_remove.len();
        let mut m: usize = 0;
        while m < r
            invariant
                m <= r,
                r == to_remove@.len(),
                n == self.table@.len(),
                self.wf(),
                self.size == old(self).size - m,
                forall|k: int|
                    0 <= k < n && self.table@[k] is Some ==> old(self).table@[k] is Some,
                forall|k: int|
                    #![trigger self.table@[k]]
                    0 <= k < n ==> (self.table@[k] matches Some(j1) ==> (old(self).table@[k]
                        matches Some(j0) && job_stepped(j0, j1))),
                forall|k: int|
                    #![trigger old(self).table@[k]]
                    0 <= k < n ==> (old(self).table@[k] matches Some(j0) ==> (self.table@[k]
                        is None ==> exists|j1: Job|
                        #[trigger] job_stepped(j0, j1) && j1.last_status.spec_finished())),
                forall|q: int|
                    0 <= q < r ==> 1 <= to_remove@[q] && to_remove@[q] <= n,
                forall|q1: int, q2: int|
                    0 <= q1 < q2 < r ==> to_remove@[q1] < to_remove@[q2],
                forall|q: int|
                    m <= q < r ==> slot_finished(self.table@[to_remove@[q] - 1]),
                forall|q: int| 0 <= q < m ==> self.table@[to_remove@[q] - 1] is None,
                forall|k: int|
                    0 <= k < n && slot_finished(self.table@[k]) ==> to_remove@.contains(
                        (k + 1) as usize,
                    ),
            decreases r - m,
        {
            let id = to_remove[m];
            let ghost pre_slot = self.table@[id - 1];
            match self.remove_job(id) {
                Ok(_) => {},
                Err(e) => {
                    return Err(e);
                },
            }
            proof {
                match (old(self).table@[id - 1], pre_slot) {
                    (Some(j0), Some(j1)) => {
                        assert(job_stepped(j0, j1) && j1.last_status.spec_finished());
                    },
                    _ => {},
                }
            }
            m += 1;
        }
        proof {
            assert forall|i2: int|
                0 <= i2 < self.table@.len() implies slot_live(self.table@[i2]) by {
                if slot_finished(self.table@[i2]) {
                    assert(to_remove@.contains((i2 + 1) as usize));
                    let q = choose|q: int| 0 <= q < to_remove@.len() && to_remove@[q] == (i2
                        + 1) as usize;
                    assert(self.table@[to_remove@[q] - 1] is None);
                }
            }
        }
        Ok(())
    }

    /// Prints every job's display line, in ascending id order.
    pub fn print_jobs(&self)
        requires
            self.wf(),
    {
        let mut i: usize = 0;
        while i < self.table.len()
            invariant
                i <= self.table@.len(),
            decreases self.table@.len() - i,
        {
            match &self.table[i] {
                Some(job) => {
                    let line = job.display_line();
                    print_line(line.as_str());
                },
                None => {},
            }
            i += 1;
        }
    }

    /// The job with the given 1-based id, if the table holds one.
    pub fn get_job(&self, id: usize) -> (r: Option<&Job>)
        ensures
            r is Some <==> (1 <= id && id - 1 < self.table@.len() && self.table@[id - 1] is Some),
            r matches Some(j) ==> Some(*j) == self.table@[id - 1],
    {
        if id >= 1 && id - 1 < self.table.len() {
            match &self.table[id - 1] {
                Some(j) => Some(j),
                None => None,
            }
        } else {
            None
        }
    }
}

/// An all-occupied prefix scan that ran to the end means the table is full.
proof fn lemma_all_some_count(t: Seq<Option<Job>>, i: int)
    requires
        0 <= i <= t.len(),
        forall|k: int| 0 <= k < t.len() ==> t[k] is Some,
    ensures
        occ_from(t, i) == t.len() - i,
    decreases t.len() - i,
{
    if i < t.len() {
        lemma_all_some_count(t, i + 1);
    }
}

} // verus!
