//! A run seen as a trace: the events of its workers in the order in which
//! they reach the shared state, and what holds along every such trace.
//!
//! Any number of workers may interleave in any way; a trace is one such
//! interleaving. What is proved of all traces therefore holds at every
//! point of every run that a status reader can observe.

use vstd::prelude::*;
use vstd::arithmetic::div_mod::{
    lemma_add_mod_noop, lemma_fundamental_div_mod, lemma_mod_multiples_vanish, lemma_small_mod,
};
use crate::engine::{course_index_spec, RunView, Worker};
use crate::outcome::{status_line_spec, CourseState, Outcome};
use crate::state::AppStateView;

verus! {

/// One event of a run, as the shared state sees it.
pub enum Event {
    /// A worker looks at the stop signal before an attempt.
    Begin,
    /// A worker reports how its attempt for the course at `index` ended.
    Finish { index: int, outcome: Outcome },
    /// The run is stopped from outside.
    Stop,
}

/// The session after one event.
pub open spec fn step(run: RunView, s: AppStateView, e: Event) -> AppStateView {
    match e {
        Event::Begin => s.begun(),
        Event::Finish { index, outcome } => s.finished(run, index, outcome),
        Event::Stop => s.halted(),
    }
}

/// The session after a trace of events, starting from `s`.
pub open spec fn replay(run: RunView, s: AppStateView, events: Seq<Event>) -> AppStateView
    decreases events.len(),
{
    if events.len() == 0 {
        s
    } else {
        step(run, replay(run, s, events.drop_last()), events.last())
    }
}

/// The number of attempts that a trace counts: its `Begin` events that found
/// the stop signal unset.
pub open spec fn attempts(run: RunView, s: AppStateView, events: Seq<Event>) -> nat
    decreases events.len(),
{
    if events.len() == 0 {
        0
    } else {
        let before = replay(run, s, events.drop_last());
        let counted: nat = if events.last() is Begin && before.should_continue {
            1
        } else {
            0
        };
        attempts(run, s, events.drop_last()) + counted
    }
}

/// Along every trace the status keeps one line per target course: if it has
/// one line per course at the start, it has one after the trace.
pub proof fn lemma_one_line_per_course(run: RunView, s: AppStateView, events: Seq<Event>)
    requires
        s.hosts(run),
    ensures
        replay(run, s, events).hosts(run),
        replay(run, s, events).enrollment_status.course_statuses.len() == run.courses.len(),
    decreases events.len(),
{
    if events.len() > 0 {
        lemma_one_line_per_course(run, s, events.drop_last());
    }
}

/// From the start of a run on, the status has one line per target course:
/// a run starts with one line per course, and no trace changes that.
pub proof fn lemma_one_line_per_course_from_start(
    run: RunView,
    s: AppStateView,
    events: Seq<Event>,
)
    ensures
        replay(run, s.launched(run.names()), events).enrollment_status.course_statuses.len()
            == run.courses.len(),
{
    lemma_one_line_per_course(run, s.launched(run.names()), events);
}

/// At every point of a trace the status has one line per target course.
pub proof fn lemma_one_line_per_course_throughout(
    run: RunView,
    s: AppStateView,
    events: Seq<Event>,
)
    requires
        s.hosts(run),
    ensures
        forall|k: int|
            0 <= k <= events.len() ==> (#[trigger] replay(run, s, events.take(k))).hosts(run),
{
    assert forall|k: int| 0 <= k <= events.len() implies (#[trigger] replay(
        run,
        s,
        events.take(k),
    )).hosts(run) by {
        lemma_one_line_per_course(run, s, events.take(k));
    }
}

/// Whether a line is a status line of the course of this name, in some
/// state.
pub open spec fn is_line_of(line: Seq<char>, name: Seq<char>) -> bool {
    exists|state: CourseState| line == #[trigger] status_line_spec(name, state)
}

/// Whether the status lines are aligned with the target courses: one line
/// per course, and the line at each index a status line of the course at
/// that index.
pub open spec fn aligned(run: RunView, s: AppStateView) -> bool {
    &&& s.hosts(run)
    &&& forall|i: int|
        0 <= i < run.courses.len() ==> is_line_of(
            #[trigger] s.enrollment_status.course_statuses[i],
            run.names()[i],
        )
}

/// A run starts with its status lines aligned with its courses.
pub proof fn lemma_start_is_aligned(run: RunView, s: AppStateView)
    ensures
        aligned(run, s.launched(run.names())),
{
    let started = s.launched(run.names());
    assert forall|i: int| 0 <= i < run.courses.len() implies is_line_of(
        #[trigger] started.enrollment_status.course_statuses[i],
        run.names()[i],
    ) by {}
}

/// The status lines never shrink, grow or change places during a run: lines
/// that are aligned with the courses stay aligned along every trace.
pub proof fn lemma_lines_stay_aligned(run: RunView, s: AppStateView, events: Seq<Event>)
    requires
        aligned(run, s),
    ensures
        aligned(run, replay(run, s, events)),
    decreases events.len(),
{
    if events.len() > 0 {
        lemma_lines_stay_aligned(run, s, events.drop_last());
        let after = replay(run, s, events);
        assert forall|i: int| 0 <= i < run.courses.len() implies is_line_of(
            #[trigger] after.enrollment_status.course_statuses[i],
            run.names()[i],
        ) by {}
    }
}

/// The count of requests after a trace is the count before it plus the
/// number of attempts of the trace: every attempt adds exactly one, and
/// nothing else changes the count.
pub proof fn lemma_total_counts_attempts(run: RunView, s: AppStateView, events: Seq<Event>)
    ensures
        replay(run, s, events).enrollment_status.total_requests
            == s.enrollment_status.total_requests + attempts(run, s, events),
    decreases events.len(),
{
    if events.len() > 0 {
        lemma_total_counts_attempts(run, s, events.drop_last());
    }
}

/// The count of requests never falls along a trace: at a later point it is
/// at least what it was at an earlier one.
pub proof fn lemma_total_never_falls(
    run: RunView,
    s: AppStateView,
    events: Seq<Event>,
    j: int,
    k: int,
)
    requires
        0 <= j <= k <= events.len(),
    ensures
        replay(run, s, events.take(j)).enrollment_status.total_requests <= replay(
            run,
            s,
            events.take(k),
        ).enrollment_status.total_requests,
    decreases k - j,
{
    if j < k {
        lemma_total_never_falls(run, s, events, j, k - 1);
        assert(events.take(k).drop_last() =~= events.take(k - 1));
    }
}

/// Once the stop signal is set, no event of a run unsets it, and no further
/// attempt is counted: after any trace the signal is still set and the count
/// of requests is what it was.
pub proof fn lemma_stop_is_final(run: RunView, s: AppStateView, events: Seq<Event>)
    requires
        !s.should_continue,
    ensures
        !replay(run, s, events).should_continue,
        attempts(run, s, events) == 0,
        replay(run, s, events).enrollment_status.total_requests
            == s.enrollment_status.total_requests,
    decreases events.len(),
{
    if events.len() > 0 {
        lemma_stop_is_final(run, s, events.drop_last());
    }
}

/// An outcome that settles the run sets the stop signal, and after it no
/// worker is handed a request, whatever happens next: a success, an
/// enrollment that exists already and a missing login always settle the
/// run, a full section does unless full sections are tried again.
pub proof fn lemma_settling_outcome_ends_run(
    run: RunView,
    s: AppStateView,
    index: int,
    outcome: Outcome,
    later: Seq<Event>,
)
    requires
        outcome.is_terminal(run.try_if_capacity_full),
    ensures
        !s.finished(run, index, outcome).should_continue,
        !replay(run, s.finished(run, index, outcome), later).should_continue,
        attempts(run, s.finished(run, index, outcome), later) == 0,
        s.finished(run, index, outcome).begun() == s.finished(run, index, outcome),
{
    lemma_stop_is_final(run, s.finished(run, index, outcome), later);
}

/// A success for any course sets the stop signal.
pub proof fn lemma_success_sets_stop(run: RunView, s: AppStateView, index: int)
    ensures
        !s.finished(run, index, Outcome::Success).should_continue,
{
}

/// An outcome that does not settle the run leaves the stop signal as it
/// was: the course is tried again on the worker's next pass.
pub proof fn lemma_other_outcomes_go_on(
    run: RunView,
    s: AppStateView,
    index: int,
    outcome: Outcome,
)
    requires
        !outcome.is_terminal(run.try_if_capacity_full),
    ensures
        s.finished(run, index, outcome).should_continue == s.should_continue,
{
}

/// A full section, where full sections are not tried again: the line of the
/// course says that it is full, and the stop signal is set.
pub proof fn lemma_full_without_retry(run: RunView, s: AppStateView, index: int)
    requires
        !run.try_if_capacity_full,
        s.hosts(run),
        0 <= index < run.courses.len(),
    ensures
        s.finished(run, index, Outcome::CapacityFull).enrollment_status.course_statuses[index]
            == status_line_spec(run.names()[index], CourseState::CapacityFull),
        !s.finished(run, index, Outcome::CapacityFull).should_continue,
{
}

/// A full section, where full sections are tried again: the line of the
/// course says that it waits, and the stop signal stays as it was.
pub proof fn lemma_full_with_retry(run: RunView, s: AppStateView, index: int)
    requires
        run.try_if_capacity_full,
        s.hosts(run),
        0 <= index < run.courses.len(),
    ensures
        s.finished(run, index, Outcome::CapacityFull).enrollment_status.course_statuses[index]
            == status_line_spec(run.names()[index], CourseState::Waiting),
        s.finished(run, index, Outcome::CapacityFull).should_continue == s.should_continue,
{
}

/// An attempt writes to the line of its own course only.
pub proof fn lemma_other_lines_untouched(
    run: RunView,
    s: AppStateView,
    index: int,
    outcome: Outcome,
    other: int,
)
    requires
        0 <= other < s.enrollment_status.course_statuses.len(),
        other != index,
    ensures
        s.finished(run, index, outcome).enrollment_status.course_statuses[other]
            == s.enrollment_status.course_statuses[other],
{
}

/// Where two workers report on the same course, the later report stands.
pub proof fn lemma_last_write_wins(
    run: RunView,
    s: AppStateView,
    index: int,
    first: Outcome,
    second: Outcome,
)
    ensures
        s.finished(run, index, first).finished(run, index, second).enrollment_status.course_statuses
            == s.finished(run, index, second).enrollment_status.course_statuses,
{
}

/// Round-robin assignment: a worker that stands at the course of pass `p`
/// and moves on stands at the course of pass `p + 1`.
pub proof fn lemma_advance_is_next_pass(worker_id: nat, pass_number: nat, course_count: nat)
    requires
        0 < course_count <= usize::MAX,
        worker_id <= usize::MAX,
    ensures
        (Worker {
            id: worker_id as usize,
            course_idx: course_index_spec(worker_id, pass_number, course_count) as usize,
        }).advanced(course_count) == (Worker {
            id: worker_id as usize,
            course_idx: course_index_spec(worker_id, pass_number + 1, course_count) as usize,
        }),
{
    let c = course_count as int;
    let x = (worker_id + pass_number) as int;
    lemma_add_mod_noop(x, 1, c);
    if c > 1 {
        lemma_small_mod(1, course_count);
    }
}

/// The worker after `passes` passes over a list of `course_count` courses.
pub open spec fn after_passes(worker: Worker, passes: nat, course_count: nat) -> Worker
    decreases passes,
{
    if passes == 0 {
        worker
    } else {
        after_passes(worker, (passes - 1) as nat, course_count).advanced(course_count)
    }
}

/// Round-robin assignment over a whole run: a worker that starts at course
/// `id mod C` and moves on by one course per pass stands at course
/// `(id + p) mod C` after `p` passes.
pub proof fn lemma_round_robin(worker_id: nat, passes: nat, course_count: nat)
    requires
        0 < course_count <= usize::MAX,
        worker_id <= usize::MAX,
    ensures
        after_passes(
            Worker {
                id: worker_id as usize,
                course_idx: course_index_spec(worker_id, 0, course_count) as usize,
            },
            passes,
            course_count,
        ) == (Worker {
            id: worker_id as usize,
            course_idx: course_index_spec(worker_id, passes, course_count) as usize,
        }),
    decreases passes,
{
    if passes > 0 {
        lemma_round_robin(worker_id, (passes - 1) as nat, course_count);
        lemma_advance_is_next_pass(worker_id, (passes - 1) as nat, course_count);
    }
}

/// Every course has its turn: whatever the number of courses, each worker
/// reaches each course within as many passes as there are courses.
pub proof fn lemma_every_course_has_its_turn(worker_id: nat, target: nat, course_count: nat)
    requires
        target < course_count,
    ensures
        exists|pass: nat|
            pass < course_count && #[trigger] course_index_spec(worker_id, pass, course_count)
                == target,
{
    let c = course_count as int;
    let w = worker_id as int;
    let a = w % c;
    let q = w / c;
    lemma_fundamental_div_mod(w, c);
    let pass: nat = if target >= a {
        (target - a) as nat
    } else {
        (target + c - a) as nat
    };
    assert(course_index_spec(worker_id, pass, course_count) == target) by {
        lemma_small_mod(target, course_count);
        if target >= a {
            lemma_mod_multiples_vanish(q, target as int, c);
        } else {
            assert(w + pass == c * (q + 1) + target) by (nonlinear_arith)
                requires
                    w == c * q + a,
                    pass == target + c - a,
            ;
            lemma_mod_multiples_vanish(q + 1, target as int, c);
        }
    }
}

} // verus!
