//! Many jobs on one pool.
//!
//! A workload is a pool and the jobs that want to render on it. The jobs take
//! turns in whatever order a scheduler gives them: on its turn a job that
//! waits scans the pool once, and a job on a slot is told the outcome of what
//! it last asked for. This module shows that such a workload cannot get
//! stuck, and that under a scheduler that gives every unfinished job a turn
//! now and then every job ends.

use vstd::prelude::*;
use std::path::PathBuf;
use crate::browser::containers::browser::{
    all_leased, fresh, is_first_free, lemma_full_or_first_free, lemma_scanned, released, scanned,
};
use crate::browser::containers::tab::{RenderEventView, RenderJobView, RenderState};
use crate::browser::ticket::RenderTicketView;

verus! {

/// Everything that the outside world may tell a job on one turn. Which part
/// applies depends on where the job stands.
pub struct Answer {
    /// The ticket that is made if the job is admitted on this turn.
    pub ticket: RenderTicketView,
    /// What came of writing the document to its file.
    pub staged: Result<PathBuf, Seq<char>>,
    /// What came of resolving the path of that file.
    pub resolution: Result<Seq<char>, ()>,
    /// What came of sending the session to the address.
    pub navigated: Result<(), Seq<char>>,
    /// What came of waiting for the page to load.
    pub loaded: Result<(), Seq<char>>,
    /// What came of exporting the page.
    pub exported: Result<Seq<u8>, Seq<char>>,
}

impl Answer {
    /// The event that a job in `state` is told: the outcome of what a job in
    /// that state has asked for.
    pub open spec fn event(self, state: RenderState) -> RenderEventView {
        match state {
            RenderState::Staging => RenderEventView::Staged(self.staged),
            RenderState::Navigating => RenderEventView::NavigateReturned(self.navigated),
            RenderState::Loading => RenderEventView::LoadReturned(self.loaded),
            RenderState::Exporting => RenderEventView::Exported(self.exported),
            _ => RenderEventView::Proceed,
        }
    }
}

/// One turn: the job whose turn it is and what it is told.
pub struct Turn {
    pub job: int,
    pub answer: Answer,
}

/// A pool and the jobs that want to render on it.
pub struct Workload {
    /// For each slot of the pool whether it is leased.
    pub leases: Seq<bool>,
    /// The jobs.
    pub jobs: Seq<RenderJobView>,
}

/// Whether a job waits for a slot.
pub open spec fn waits(job: RenderJobView) -> bool {
    job.state is Pending || job.state is AwaitingSlot
}

/// The work that is left: for each job the number of events it may still take
/// once it has a slot, and one more for its admission.
pub open spec fn work(jobs: Seq<RenderJobView>) -> nat
    decreases jobs.len(),
{
    if jobs.len() == 0 {
        0
    } else {
        work(jobs.drop_last()) + jobs.last().state.remaining()
    }
}

impl Workload {
    /// `capacity` free slots and `count` jobs that have just been accepted.
    pub open spec fn begin(capacity: nat, count: nat) -> Workload {
        Workload {
            leases: fresh(capacity),
            jobs: Seq::new(count, |j: int| RenderJobView::pending()),
        }
    }

    /// Whether the job is at work on the slot.
    pub open spec fn holds(self, job: int, slot: int) -> bool {
        &&& 0 <= job < self.jobs.len()
        &&& self.jobs[job].state.on_slot()
        &&& self.jobs[job].session == Some(slot as usize)
    }

    /// Whether pool and jobs agree: the jobs at work hold leased slots of the
    /// pool, no two of them the same, and every leased slot is held by a job
    /// at work.
    pub open spec fn consistent(self) -> bool {
        &&& self.leases.len() <= usize::MAX
        &&& forall|j: int|
            0 <= j < self.jobs.len() && (#[trigger] self.jobs[j]).state.on_slot() ==> {
                &&& self.jobs[j].session is Some
                &&& self.jobs[j].session->0 < self.leases.len()
                &&& self.leases[self.jobs[j].session->0 as int]
            }
        &&& forall|j: int, k: int|
            0 <= j < self.jobs.len() && 0 <= k < self.jobs.len() && j != k && (
            #[trigger] self.jobs[j]).state.on_slot() && (#[trigger] self.jobs[k]).state.on_slot()
                ==> self.jobs[j].session != self.jobs[k].session
        &&& forall|slot: int|
            0 <= slot < self.leases.len() && #[trigger] self.leases[slot] ==> exists|j: int|
                #[trigger] self.holds(j, slot)
    }

    /// Whether every job has ended.
    pub open spec fn ended(self) -> bool {
        forall|j: int| 0 <= j < self.jobs.len() ==> (#[trigger] self.jobs[j]).state.is_terminal()
    }

    /// The workload after one turn.
    ///
    /// A job that waits scans the pool as
    /// [`RenderingEngine::render_html`](crate::rendering_engine::RenderingEngine::render_html)
    /// does: it takes the first free slot and begins, or goes on waiting. A
    /// job on a slot takes its step as
    /// [`RenderJob::advance`](crate::browser::containers::tab::RenderJob::advance)
    /// does, and when that ends it the lease goes back to the pool as in
    /// [`RenderingEngine::complete`](crate::rendering_engine::RenderingEngine::complete).
    /// A job that has ended, or a turn for a job that is not there, changes
    /// nothing.
    pub open spec fn turn(self, turn: Turn) -> Workload {
        if !(0 <= turn.job < self.jobs.len()) {
            self
        } else {
            let job = self.jobs[turn.job];
            if waits(job) {
                if all_leased(self.leases) {
                    Workload {
                        jobs: self.jobs.update(turn.job, job.at(RenderState::AwaitingSlot)),
                        ..self
                    }
                } else {
                    let slot = choose|slot: int| is_first_free(self.leases, slot);
                    Workload {
                        leases: scanned(self.leases),
                        jobs: self.jobs.update(
                            turn.job,
                            RenderJobView::started(slot as usize, turn.answer.ticket).0,
                        ),
                    }
                }
            } else if job.state.on_slot() {
                let after = job.next(turn.answer.event(job.state), turn.answer.resolution).0;
                Workload {
                    leases: if after.state.is_terminal() {
                        released(self.leases, job.session->0 as int)
                    } else {
                        self.leases
                    },
                    jobs: self.jobs.update(turn.job, after),
                }
            } else {
                self
            }
        }
    }
}

/// Replacing one job changes the work that is left by that job alone.
pub proof fn lemma_work_update(jobs: Seq<RenderJobView>, at: int, job: RenderJobView)
    requires
        0 <= at < jobs.len(),
    ensures
        work(jobs.update(at, job)) + jobs[at].state.remaining() == work(jobs)
            + job.state.remaining(),
    decreases jobs.len(),
{
    if at == jobs.len() - 1 {
        assert(jobs.update(at, job).drop_last() =~= jobs.drop_last());
    } else {
        assert(jobs.update(at, job).drop_last() =~= jobs.drop_last().update(at, job));
        lemma_work_update(jobs.drop_last(), at, job);
    }
}

/// No work is left exactly when every job has ended.
pub proof fn lemma_no_work_left(jobs: Seq<RenderJobView>)
    ensures
        work(jobs) == 0 <==> (forall|j: int|
            0 <= j < jobs.len() ==> (#[trigger] jobs[j]).state.is_terminal()),
    decreases jobs.len(),
{
    if jobs.len() > 0 {
        let front = jobs.drop_last();
        lemma_no_work_left(front);
        if work(jobs) == 0 {
            assert forall|j: int| 0 <= j < jobs.len() implies (#[trigger] jobs[j]).state.is_terminal() by {
                if j < front.len() {
                    assert(front[j].state.is_terminal());
                }
            }
        }
        if forall|j: int| 0 <= j < jobs.len() ==> (#[trigger] jobs[j]).state.is_terminal() {
            assert(jobs.last().state.is_terminal());
            assert forall|j: int| 0 <= j < front.len() implies (#[trigger] front[j]).state.is_terminal() by {
                assert(jobs[j].state.is_terminal());
            }
        }
    }
}

/// One turn keeps pool and jobs in agreement, touches no job but the one
/// whose turn it is, and never adds work. It takes work away whenever that
/// job is on a slot, and whenever it waits while a slot is free.
pub proof fn lemma_turn(load: Workload, turn: Turn)
    requires
        load.consistent(),
    ensures
        load.turn(turn).consistent(),
        load.turn(turn).leases.len() == load.leases.len(),
        load.turn(turn).jobs.len() == load.jobs.len(),
        forall|k: int|
            0 <= k < load.jobs.len() && k != turn.job ==> #[trigger] load.turn(turn).jobs[k]
                == load.jobs[k],
        work(load.turn(turn).jobs) <= work(load.jobs),
        0 <= turn.job < load.jobs.len() && load.jobs[turn.job].state.on_slot() ==> work(
            load.turn(turn).jobs,
        ) < work(load.jobs),
        0 <= turn.job < load.jobs.len() && waits(load.jobs[turn.job]) && !all_leased(load.leases)
            ==> work(load.turn(turn).jobs) < work(load.jobs),
        0 <= turn.job < load.jobs.len() && load.jobs[turn.job].state.is_terminal() ==> load.turn(
            turn,
        ) == load,
        !(0 <= turn.job < load.jobs.len()) ==> load.turn(turn) == load,
{
    let after = load.turn(turn);
    if 0 <= turn.job < load.jobs.len() {
        let job = load.jobs[turn.job];
        lemma_work_update(load.jobs, turn.job, after.jobs[turn.job]);
        if waits(job) {
            if all_leased(load.leases) {
                assert(after.jobs =~= load.jobs.update(turn.job, job.at(RenderState::AwaitingSlot)));
                assert forall|slot: int|
                    0 <= slot < after.leases.len() && #[trigger] after.leases[slot] implies exists|
                    j: int,
                | #[trigger] after.holds(j, slot) by {
                    let j = choose|j: int| #[trigger] load.holds(j, slot);
                    assert(load.holds(j, slot));
                    assert(after.holds(j, slot));
                }
            } else {
                lemma_full_or_first_free(load.leases);
                lemma_scanned(load.leases);
                let slot = choose|slot: int| is_first_free(load.leases, slot);
                assert(after.leases == load.leases.update(slot, true));
                assert forall|slot2: int|
                    0 <= slot2 < after.leases.len() && #[trigger] after.leases[slot2] implies exists|
                    j: int,
                | #[trigger] after.holds(j, slot2) by {
                    if slot2 == slot {
                        assert(after.holds(turn.job, slot2));
                    } else {
                        let j = choose|j: int| #[trigger] load.holds(j, slot2);
                        assert(load.holds(j, slot2));
                        assert(after.holds(j, slot2));
                    }
                }
            }
        } else if job.state.on_slot() {
            let next = job.next(turn.answer.event(job.state), turn.answer.resolution).0;
            let held = job.session->0 as int;
            assert(next.session == job.session);
            assert forall|slot: int|
                0 <= slot < after.leases.len() && #[trigger] after.leases[slot] implies exists|
                j: int,
            | #[trigger] after.holds(j, slot) by {
                assert(load.leases[slot]);
                let j = choose|j: int| #[trigger] load.holds(j, slot);
                assert(load.holds(j, slot));
                if j == turn.job {
                    assert(slot == held);
                    assert(!next.state.is_terminal());
                }
                assert(after.holds(j, slot));
            }
        }
    }
}

impl Workload {
    /// The workload after the turns of a schedule, one after the other.
    pub open spec fn run(self, schedule: Seq<Turn>) -> Workload
        decreases schedule.len(),
    {
        if schedule.len() == 0 {
            self
        } else {
            self.turn(schedule.first()).run(schedule.drop_first())
        }
    }

    /// Whether the schedule gives every job that has not ended a turn.
    pub open spec fn fair(self, schedule: Seq<Turn>) -> bool {
        forall|j: int|
            0 <= j < self.jobs.len() && !(#[trigger] self.jobs[j]).state.is_terminal() ==> exists|
                t: int,
            | 0 <= t < schedule.len() && (#[trigger] schedule[t]).job == j
    }

    /// The workload after the rounds of a schedule, one after the other.
    pub open spec fn run_rounds(self, rounds: Seq<Seq<Turn>>) -> Workload
        decreases rounds.len(),
    {
        if rounds.len() == 0 {
            self
        } else {
            self.run(rounds.first()).run_rounds(rounds.drop_first())
        }
    }

    /// Whether every round gives every job that has not ended when the round
    /// begins a turn.
    pub open spec fn fair_rounds(self, rounds: Seq<Seq<Turn>>) -> bool
        decreases rounds.len(),
    {
        if rounds.len() == 0 {
            true
        } else {
            self.fair(rounds.first()) && self.run(rounds.first()).fair_rounds(rounds.drop_first())
        }
    }
}

/// No schedule breaks the agreement of pool and jobs, changes how many slots
/// or jobs there are, or adds work.
pub proof fn lemma_run(load: Workload, schedule: Seq<Turn>)
    requires
        load.consistent(),
    ensures
        load.run(schedule).consistent(),
        load.run(schedule).leases.len() == load.leases.len(),
        load.run(schedule).jobs.len() == load.jobs.len(),
        work(load.run(schedule).jobs) <= work(load.jobs),
    decreases schedule.len(),
{
    if schedule.len() > 0 {
        lemma_turn(load, schedule.first());
        lemma_run(load.turn(schedule.first()), schedule.drop_first());
    }
}

/// A schedule that gives a turn to a job on a slot takes work away.
proof fn lemma_run_with_job_on_slot(load: Workload, schedule: Seq<Turn>, job: int, at: int)
    requires
        load.consistent(),
        0 <= job < load.jobs.len(),
        load.jobs[job].state.on_slot(),
        0 <= at < schedule.len(),
        schedule[at].job == job,
    ensures
        work(load.run(schedule).jobs) < work(load.jobs),
    decreases schedule.len(),
{
    let first = schedule.first();
    let rest = schedule.drop_first();
    lemma_turn(load, first);
    lemma_run(load.turn(first), rest);
    if first.job != job {
        assert(at > 0);
        assert(rest[at - 1] == schedule[at]);
        assert(load.turn(first).jobs[job] == load.jobs[job]);
        lemma_run_with_job_on_slot(load.turn(first), rest, job, at - 1);
    }
}

/// On a pool with a slot, a fair schedule takes work away even when no job
/// is on a slot: the first job that waits and gets a turn is admitted.
proof fn lemma_run_with_idle_pool(load: Workload, schedule: Seq<Turn>)
    requires
        load.consistent(),
        load.leases.len() >= 1,
        forall|j: int| 0 <= j < load.jobs.len() ==> !(#[trigger] load.jobs[j]).state.on_slot(),
        load.fair(schedule),
        work(load.jobs) > 0,
    ensures
        work(load.run(schedule).jobs) < work(load.jobs),
    decreases schedule.len(),
{
    lemma_no_work_left(load.jobs);
    let unfinished = choose|j: int|
        0 <= j < load.jobs.len() && !(#[trigger] load.jobs[j]).state.is_terminal();
    let turn_of = choose|t: int| 0 <= t < schedule.len() && (#[trigger] schedule[t]).job == unfinished;
    assert(schedule.len() > 0);
    let first = schedule.first();
    let rest = schedule.drop_first();
    lemma_turn(load, first);
    lemma_run(load.turn(first), rest);
    if 0 <= first.job < load.jobs.len() && !load.jobs[first.job].state.is_terminal() {
        assert(!load.jobs[first.job].state.on_slot());
        assert(waits(load.jobs[first.job]));
        if all_leased(load.leases) {
            assert(load.leases[0]);
            let holder = choose|j: int| #[trigger] load.holds(j, 0);
            assert(load.holds(holder, 0));
            assert(load.jobs[holder].state.on_slot());
        }
    } else {
        assert(load.turn(first) == load);
        assert forall|j: int|
            0 <= j < load.jobs.len() && !(#[trigger] load.jobs[j]).state.is_terminal() implies exists|
            t: int,
        | 0 <= t < rest.len() && (#[trigger] rest[t]).job == j by {
            let t = choose|t: int| 0 <= t < schedule.len() && (#[trigger] schedule[t]).job == j;
            assert(t > 0);
            assert(rest[t - 1] == schedule[t]);
        }
        lemma_run_with_idle_pool(load, rest);
    }
}

/// A workload cannot get stuck: on a pool with at least one slot, a round
/// that gives every unfinished job a turn takes work away as long as any is
/// left, whatever the backend answers and in whatever order the turns come.
pub proof fn law_fair_round_brings_the_end_closer(load: Workload, round: Seq<Turn>)
    requires
        load.consistent(),
        load.leases.len() >= 1,
        load.fair(round),
        work(load.jobs) > 0,
    ensures
        load.run(round).consistent(),
        work(load.run(round).jobs) < work(load.jobs),
{
    lemma_run(load, round);
    if exists|j: int| 0 <= j < load.jobs.len() && (#[trigger] load.jobs[j]).state.on_slot() {
        let job = choose|j: int| 0 <= j < load.jobs.len() && (#[trigger] load.jobs[j]).state.on_slot();
        assert(!load.jobs[job].state.is_terminal());
        let at = choose|t: int| 0 <= t < round.len() && (#[trigger] round[t]).job == job;
        lemma_run_with_job_on_slot(load, round, job, at);
    } else {
        lemma_run_with_idle_pool(load, round);
    }
}

/// Every job ends: on a pool with at least one slot, after as many fair
/// rounds as there is work left every job has ended, with its PDF or with a
/// failure, and every lease is back in the pool. The rounds may take the
/// jobs in any order and the backend may answer anything.
pub proof fn law_fair_rounds_end_every_job(load: Workload, rounds: Seq<Seq<Turn>>)
    requires
        load.consistent(),
        load.leases.len() >= 1,
        load.fair_rounds(rounds),
        rounds.len() >= work(load.jobs),
    ensures
        load.run_rounds(rounds).ended(),
        load.run_rounds(rounds).jobs.len() == load.jobs.len(),
        load.run_rounds(rounds).leases.len() == load.leases.len(),
        forall|slot: int|
            0 <= slot < load.leases.len() ==> !(#[trigger] load.run_rounds(rounds).leases[slot]),
    decreases rounds.len(),
{
    if rounds.len() == 0 {
        lemma_no_work_left(load.jobs);
        lemma_ended_workload_holds_no_lease(load);
    } else {
        let after = load.run(rounds.first());
        lemma_run(load, rounds.first());
        if work(load.jobs) > 0 {
            law_fair_round_brings_the_end_closer(load, rounds.first());
        }
        law_fair_rounds_end_every_job(after, rounds.drop_first());
    }
}

/// When every job has ended, no slot is leased.
proof fn lemma_ended_workload_holds_no_lease(load: Workload)
    requires
        load.consistent(),
        load.ended(),
    ensures
        forall|slot: int| 0 <= slot < load.leases.len() ==> !(#[trigger] load.leases[slot]),
{
    assert forall|slot: int| 0 <= slot < load.leases.len() implies !(#[trigger] load.leases[slot]) by {
        if load.leases[slot] {
            let holder = choose|j: int| #[trigger] load.holds(j, slot);
            assert(load.holds(holder, slot));
            assert(load.jobs[holder].state.is_terminal());
        }
    }
}

/// Accepted jobs and a fresh pool agree, and each job has six steps before
/// it: its admission and five events.
pub proof fn lemma_begin(capacity: nat, count: nat)
    requires
        capacity <= usize::MAX,
    ensures
        Workload::begin(capacity, count).consistent(),
        Workload::begin(capacity, count).leases.len() == capacity,
        Workload::begin(capacity, count).jobs.len() == count,
        work(Workload::begin(capacity, count).jobs) == 6 * count,
    decreases count,
{
    let load = Workload::begin(capacity, count);
    if count > 0 {
        assert(load.jobs.drop_last() =~= Workload::begin(capacity, (count - 1) as nat).jobs);
        lemma_begin(capacity, (count - 1) as nat);
    }
}

/// More jobs than slots all complete: when `count` jobs are accepted on a
/// pool of `capacity` slots, one at least, then after six fair rounds for
/// each job every job has ended and every lease is back, however many more
/// jobs than slots there are.
pub proof fn law_all_jobs_complete(capacity: nat, count: nat, rounds: Seq<Seq<Turn>>)
    requires
        1 <= capacity <= usize::MAX,
        Workload::begin(capacity, count).fair_rounds(rounds),
        rounds.len() >= 6 * count,
    ensures
        Workload::begin(capacity, count).run_rounds(rounds).ended(),
        Workload::begin(capacity, count).run_rounds(rounds).jobs.len() == count,
        forall|slot: int|
            0 <= slot < capacity ==> !(#[trigger] Workload::begin(capacity, count).run_rounds(
                rounds,
            ).leases[slot]),
{
    lemma_begin(capacity, count);
    law_fair_rounds_end_every_job(Workload::begin(capacity, count), rounds);
}

/// The round that gives the jobs their turns one after the other, first to
/// last, is fair whatever the jobs are at.
pub proof fn lemma_round_robin_is_fair(load: Workload, round: Seq<Turn>)
    requires
        round.len() == load.jobs.len(),
        forall|t: int| 0 <= t < round.len() ==> (#[trigger] round[t]).job == t,
    ensures
        load.fair(round),
{
    assert forall|j: int|
        0 <= j < load.jobs.len() && !(#[trigger] load.jobs[j]).state.is_terminal() implies exists|
        t: int,
    | 0 <= t < round.len() && (#[trigger] round[t]).job == j by {
        assert(round[j].job == j);
    }
}

} // verus!
