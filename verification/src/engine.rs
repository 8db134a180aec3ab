//! The job engine: issues durable handles for submitted commands, records
//! each job as pending until its executor publishes exactly one outcome,
//! and answers polls against the outcome store.
//!
//! The store is modelled as a sequence of entries indexed by handle: a
//! handle is a position in the sequence, so a fresh handle is never a
//! previously issued one, and entries for other handles are untouched by
//! any operation.

use vstd::prelude::*;

use crate::types::{ApiCommand, ApiCommandResult, CommandV, OutcomeV, PollResult, PollV};

verus! {

/// Mathematical value of a store entry.
pub ghost enum JobV {
    Pending(CommandV),
    Ready(OutcomeV),
}

/// One outcome-store entry: the job is still running (with the command it
/// was submitted for), or it ended with its outcome.
pub enum JobState {
    Pending(ApiCommand),
    Ready(ApiCommandResult),
}

impl View for JobState {
    type V = JobV;

    open spec fn view(&self) -> JobV {
        match self {
            JobState::Pending(c) => JobV::Pending(c@),
            JobState::Ready(o) => JobV::Ready(o@),
        }
    }
}

/// Whether handle `h` has been issued in store `jobs`.
pub open spec fn issued(jobs: Seq<JobV>, h: u64) -> bool {
    h < jobs.len()
}

/// What a poll of handle `h` observes in store `jobs`.
pub open spec fn lookup(jobs: Seq<JobV>, h: u64) -> PollV {
    if h < jobs.len() {
        match jobs[h as int] {
            JobV::Pending(_) => PollV::Pending,
            JobV::Ready(o) => PollV::Ready(o),
        }
    } else {
        PollV::NotFound
    }
}

/// The handle the next submission will be given.
pub open spec fn fresh_handle(jobs: Seq<JobV>) -> u64 {
    jobs.len() as u64
}

/// The store after submitting `cmd`: one new pending entry.
pub open spec fn submitted(jobs: Seq<JobV>, cmd: CommandV) -> Seq<JobV> {
    jobs.push(JobV::Pending(cmd))
}

/// The store after the executor of job `h` publishes `o`.
pub open spec fn published(jobs: Seq<JobV>, h: u64, o: OutcomeV) -> Seq<JobV> {
    jobs.update(h as int, JobV::Ready(o))
}

/// The engine: allocates handles at submission, and lets any number of
/// later polls read each job's state. Entries move from pending to ready
/// exactly once, through `publish`.
pub struct Engine {
    jobs: Vec<JobState>,
}

impl View for Engine {
    type V = Seq<JobV>;

    closed spec fn view(&self) -> Seq<JobV> {
        self.jobs@.map_values(|j: JobState| j@)
    }
}

impl Engine {
    /// An engine with no handle issued yet.
    pub fn new() -> (e: Engine)
        ensures
            e@ == Seq::<JobV>::empty(),
    {
        let e = Engine { jobs: Vec::new() };
        proof {
            assert(e@ =~= Seq::<JobV>::empty());
        }
        e
    }

    /// Accepts a command: issues a handle never issued before, and records
    /// the job as pending. Running the job is the executor's part; this
    /// call returns at once.
    pub fn submit(&mut self, cmd: &ApiCommand) -> (h: u64)
        requires
            old(self)@.len() < u64::MAX,
        ensures
            h == fresh_handle(old(self)@),
            !issued(old(self)@, h),
            final(self)@ == submitted(old(self)@, cmd@),
            lookup(final(self)@, h) == PollV::Pending,
    {
        let h = self.jobs.len() as u64;
        self.jobs.push(JobState::Pending(cmd.clone()));
        proof {
            assert(self@ =~= submitted(old(self)@, cmd@));
        }
        h
    }

    /// Read-only poll: never-issued handles answer `NotFound`, running jobs
    /// `Pending`, finished jobs `Ready` with the published outcome.
    pub fn poll(&self, h: u64) -> (r: PollResult)
        ensures
            r@ == lookup(self@, h),
    {
        if h < self.jobs.len() as u64 {
            let i = h as usize;
            match &self.jobs[i] {
                JobState::Pending(_) => PollResult::Pending,
                JobState::Ready(o) => PollResult::Ready(o.clone()),
            }
        } else {
            PollResult::NotFound
        }
    }

    /// How many handles have been issued so far.
    pub fn job_count(&self) -> (n: usize)
        ensures
            n == self@.len(),
    {
        self.jobs.len()
    }

    /// Publishes the outcome of job `h`: the one pending-to-ready
    /// transition of that entry, performed once by the job's executor.
    /// Every other entry is left unchanged.
    pub fn publish(&mut self, h: u64, outcome: ApiCommandResult)
        requires
            lookup(old(self)@, h) is Pending,
        ensures
            final(self)@ == published(old(self)@, h, outcome@),
    {
        proof {
            assert(h < old(self)@.len());
        }
        let n = self.jobs.len();
        proof {
            assert(h < n);
        }
        let i = h as usize;
        self.jobs[i] = JobState::Ready(outcome);
        proof {
            let post = published(old(self)@, h, outcome@);
            assert forall|j: int| 0 <= j < self@.len() implies self@[j] == post[j] by {
                assert(self@[j] == self.jobs@[j]@);
            }
            assert(self@ =~= post);
        }
    }
}

/// Law: the handle a submission returns was never issued before it — a poll
/// of it would have answered `NotFound` — and no operation un-issues a
/// handle; so no two submissions ever share a handle.
pub proof fn lemma_submit_fresh(jobs: Seq<JobV>, cmd: CommandV)
    requires
        jobs.len() < u64::MAX,
    ensures
        lookup(jobs, fresh_handle(jobs)) == PollV::NotFound,
        forall|h: u64| issued(jobs, h) ==> issued(submitted(jobs, cmd), h),
        forall|h: u64, h2: u64, o: OutcomeV|
            issued(jobs, h) && issued(jobs, h2) ==> issued(published(jobs, h2, o), h),
{
}

/// Law: a poll of a handle that was never issued answers `NotFound`,
/// whatever the handle.
pub proof fn lemma_poll_unissued(jobs: Seq<JobV>, h: u64)
    requires
        !issued(jobs, h),
    ensures
        lookup(jobs, h) == PollV::NotFound,
{
}

/// Law: a submitted job is pending until its executor publishes: the new
/// entry is `Pending`, and submission leaves every other handle's
/// observation unchanged, so no outcome is observable before `publish`.
pub proof fn lemma_submit_pending(jobs: Seq<JobV>, cmd: CommandV)
    requires
        jobs.len() < u64::MAX,
    ensures
        lookup(submitted(jobs, cmd), fresh_handle(jobs)) == PollV::Pending,
        forall|h: u64| h != fresh_handle(jobs) ==> lookup(submitted(jobs, cmd), h) == lookup(jobs, h),
{
}

/// Law: once an entry is ready it stays ready with the same outcome: no
/// later submission, nor a publish of any still-pending handle, changes
/// what a poll of it observes.
pub proof fn lemma_ready_stable(
    jobs: Seq<JobV>,
    h: u64,
    o: OutcomeV,
    cmd: CommandV,
    h2: u64,
    o2: OutcomeV,
)
    requires
        jobs.len() < u64::MAX,
        lookup(jobs, h) == PollV::Ready(o),
        lookup(jobs, h2) is Pending,
    ensures
        lookup(submitted(jobs, cmd), h) == PollV::Ready(o),
        lookup(published(jobs, h2, o2), h) == PollV::Ready(o),
{
    assert(h != h2);
}

/// The store after submitting each command of `cmds` in order.
pub open spec fn submitted_all(jobs: Seq<JobV>, cmds: Seq<CommandV>) -> Seq<JobV>
    decreases cmds.len(),
{
    if cmds.len() == 0 {
        jobs
    } else {
        submitted_all(submitted(jobs, cmds[0]), cmds.drop_first())
    }
}

/// Law: submitting a batch of commands issues one distinct handle per
/// command — consecutive positions in the store — records each command's
/// own pending entry at its own handle, and leaves every existing entry
/// unchanged.
pub proof fn lemma_submit_all(jobs: Seq<JobV>, cmds: Seq<CommandV>)
    ensures
        submitted_all(jobs, cmds).len() == jobs.len() + cmds.len(),
        forall|k: int|
            0 <= k < cmds.len() ==> submitted_all(jobs, cmds)[jobs.len() + k]
                == JobV::Pending(cmds[k]),
        forall|i: int| 0 <= i < jobs.len() ==> submitted_all(jobs, cmds)[i] == jobs[i],
    decreases cmds.len(),
{
    if cmds.len() > 0 {
        let next = submitted(jobs, cmds[0]);
        lemma_submit_all(next, cmds.drop_first());
        assert forall|k: int| 0 <= k < cmds.len() implies submitted_all(jobs, cmds)[jobs.len() + k]
            == JobV::Pending(cmds[k]) by {
            if k == 0 {
                assert(submitted_all(jobs, cmds)[jobs.len() as int] == next[jobs.len() as int]);
            } else {
                assert(cmds.drop_first()[k - 1] == cmds[k]);
                assert(submitted_all(jobs, cmds)[next.len() + (k - 1)] == JobV::Pending(
                    cmds.drop_first()[k - 1],
                ));
            }
        }
        assert forall|i: int| 0 <= i < jobs.len() implies submitted_all(jobs, cmds)[i] == jobs[i] by {
            assert(submitted_all(next, cmds.drop_first())[i] == next[i]);
            assert(next[i] == jobs[i]);
        }
    }
}

/// The store after the executors of handles `base`, `base + 1`, ... have
/// published, in order, one outcome each.
pub open spec fn published_each(jobs: Seq<JobV>, base: u64, outs: Seq<OutcomeV>) -> Seq<JobV>
    decreases outs.len(),
{
    if outs.len() == 0 {
        jobs
    } else {
        published_each(published(jobs, base, outs[0]), (base + 1) as u64, outs.drop_first())
    }
}

/// Law: once a batch of pending jobs — such as a batch submission leaves
/// behind — is published one outcome each, every one of those jobs polls
/// ready with exactly its own outcome, and every other handle's
/// observation is unchanged.
pub proof fn lemma_publish_each(jobs: Seq<JobV>, base: u64, outs: Seq<OutcomeV>)
    requires
        base + outs.len() <= jobs.len(),
        jobs.len() <= u64::MAX,
        forall|k: int| 0 <= k < outs.len() ==> (#[trigger] jobs[base + k]) is Pending,
    ensures
        published_each(jobs, base, outs).len() == jobs.len(),
        forall|k: int|
            0 <= k < outs.len() ==> lookup(published_each(jobs, base, outs), (base + k) as u64)
                == PollV::Ready(outs[k]),
        forall|h: u64|
            h < base || base + outs.len() <= h ==> lookup(published_each(jobs, base, outs), h)
                == lookup(jobs, h),
    decreases outs.len(),
{
    if outs.len() > 0 {
        let first = published(jobs, base, outs[0]);
        assert forall|k: int| 0 <= k < outs.drop_first().len() implies (#[trigger] first[(base + 1)
            + k]) is Pending by {
            assert(jobs[base + (k + 1)] is Pending);
        }
        lemma_publish_each(first, (base + 1) as u64, outs.drop_first());
        assert forall|k: int| 0 <= k < outs.len() implies lookup(
            published_each(jobs, base, outs),
            (base + k) as u64,
        ) == PollV::Ready(outs[k]) by {
            if k == 0 {
                assert(lookup(published_each(first, (base + 1) as u64, outs.drop_first()), base)
                    == lookup(first, base));
                assert(first[base as int] == JobV::Ready(outs[0]));
            } else {
                assert(outs.drop_first()[k - 1] == outs[k]);
                assert(((base + 1) as u64 + (k - 1)) as u64 == (base + k) as u64);
            }
        }
        assert forall|h: u64| h < base || base + outs.len() <= h implies lookup(
            published_each(jobs, base, outs),
            h,
        ) == lookup(jobs, h) by {
            assert(lookup(published_each(first, (base + 1) as u64, outs.drop_first()), h)
                == lookup(first, h));
            assert(lookup(first, h) == lookup(jobs, h));
        }
    }
}

/// Law: submitting a batch of commands and then letting each job's
/// executor publish its own outcome ends with exactly one ready outcome
/// per command, each job polling the outcome published for it.
pub proof fn lemma_batch_jobs(jobs: Seq<JobV>, cmds: Seq<CommandV>, outs: Seq<OutcomeV>)
    requires
        cmds.len() == outs.len(),
        jobs.len() + cmds.len() <= u64::MAX,
    ensures
        forall|k: int|
            0 <= k < cmds.len() ==> lookup(
                published_each(submitted_all(jobs, cmds), fresh_handle(jobs), outs),
                (fresh_handle(jobs) + k) as u64,
            ) == PollV::Ready(outs[k]),
{
    lemma_submit_all(jobs, cmds);
    let store = submitted_all(jobs, cmds);
    let base = fresh_handle(jobs);
    assert forall|k: int| 0 <= k < outs.len() implies (#[trigger] store[base + k]) is Pending by {
        assert(store[jobs.len() + k] == JobV::Pending(cmds[k]));
    }
    lemma_publish_each(store, base, outs);
}

} // verus!
