//! The enrollment race engine. A fixed pool of workers goes round the target
//! courses; each attempt is counted, classified and written to the status
//! line of its course, and an outcome that settles the run stops every
//! worker at its next look at the stop signal.
//!
//! The engine decides; the caller sends the requests and waits. A worker
//! calls `begin_attempt`, sends what it is handed, and reports the answer to
//! `finish_attempt`, which says whether to wait and go on or to exit.

use vstd::prelude::*;
use crate::error::{ErrorKind, ErrorKindView};
use crate::model::{course_names, CourseInfo, EnrollmentStatus, EnrollmentStatusView};
use crate::outcome::{status_line, status_line_spec, AttemptResult, CourseState, Outcome, outcome_of};
use crate::state::{AppState, AppStateView, Step};
use crate::text::{copy_or_empty, text_or_empty, texts};

verus! {

/// The number of workers of a run.
pub const WORKER_COUNT: usize = 12;

/// The pause of a worker between two attempts, in milliseconds.
pub const ATTEMPT_DELAY_MS: u64 = 200;

/// How long a worker waits for the answer to one attempt, in milliseconds.
/// An attempt without an answer by then has failed, so that a request that
/// hangs cannot hold its worker for good.
pub const ATTEMPT_TIMEOUT_MS: u64 = 10000;

/// What a run fixes when it starts: the target courses in order, whether a
/// full section is tried again, and the session to enroll with.
#[derive(Debug)]
pub struct Run {
    pub courses: Vec<CourseInfo>,
    pub try_if_capacity_full: bool,
    pub token: String,
    pub batch_id: String,
}

/// The mathematical model of a `Run`.
pub struct RunView {
    pub courses: Seq<CourseInfo>,
    pub try_if_capacity_full: bool,
    pub token: Seq<char>,
    pub batch_id: Seq<char>,
}

impl View for Run {
    type V = RunView;

    open spec fn view(&self) -> RunView {
        RunView {
            courses: self.courses@,
            try_if_capacity_full: self.try_if_capacity_full,
            token: self.token@,
            batch_id: self.batch_id@,
        }
    }
}

impl RunView {
    /// The names of the target courses, in order.
    pub open spec fn names(self) -> Seq<Seq<char>> {
        course_names(self.courses)
    }
}

/// One worker of the pool: its number and the index of the course that its
/// next attempt is for.
#[derive(Clone, Copy, Debug, PartialEq, Eq, Structural)]
pub struct Worker {
    pub id: usize,
    pub course_idx: usize,
}

/// What a worker sends to the portal for one attempt.
#[derive(Debug)]
pub struct EnrollRequest {
    pub token: String,
    pub batch_id: String,
    pub class_type: String,
    pub class_id: String,
    pub secret_val: String,
    /// How long to wait for the answer, in milliseconds.
    pub timeout_millis: u64,
}

/// The mathematical model of an `EnrollRequest`.
pub struct EnrollRequestView {
    pub token: Seq<char>,
    pub batch_id: Seq<char>,
    pub class_type: Seq<char>,
    pub class_id: Seq<char>,
    pub secret_val: Seq<char>,
    pub timeout_millis: u64,
}

impl View for EnrollRequest {
    type V = EnrollRequestView;

    open spec fn view(&self) -> EnrollRequestView {
        EnrollRequestView {
            token: self.token@,
            batch_id: self.batch_id@,
            class_type: self.class_type@,
            class_id: self.class_id@,
            secret_val: self.secret_val@,
            timeout_millis: self.timeout_millis,
        }
    }
}

/// What a worker does after an attempt.
#[derive(Clone, Copy, Debug, PartialEq, Eq, Structural)]
pub enum WorkerAction {
    /// Wait this many milliseconds, then begin the next attempt.
    Wait { millis: u64 },
    /// Leave the loop: the run is over.
    Exit,
}

/// What a call to start a run hands back: a snapshot of the status, and the
/// run and its workers where one was started.
#[derive(Debug)]
pub struct Launch {
    pub status: EnrollmentStatus,
    pub run: Option<Run>,
    pub workers: Vec<Worker>,
}

/// How a call to start a run is answered.
pub enum StartVerdict {
    /// A run is active: nothing changes.
    AlreadyRunning,
    /// There is no target course: nothing changes.
    NothingToDo,
    /// The session holds no token.
    NoToken,
    /// The session holds no round.
    NoBatch,
    /// A run starts.
    Go,
}

/// Whether a part of the session is absent or empty.
pub open spec fn missing(part: Option<Seq<char>>) -> bool {
    match part {
        Some(text) => text.len() == 0,
        None => true,
    }
}

/// How a call to start a run on `count` courses is answered in session `s`.
pub open spec fn start_verdict(s: AppStateView, count: nat) -> StartVerdict {
    if s.enrollment_status.is_running {
        StartVerdict::AlreadyRunning
    } else if count == 0 {
        StartVerdict::NothingToDo
    } else if missing(s.token) {
        StartVerdict::NoToken
    } else if missing(s.batch_id) {
        StartVerdict::NoBatch
    } else {
        StartVerdict::Go
    }
}

/// The course that a worker attempts on a pass: workers start one course
/// apart and move on by one course per pass, round the list.
pub open spec fn course_index_spec(worker_id: nat, pass_number: nat, course_count: nat) -> nat
    recommends
        course_count > 0,
{
    (((worker_id + pass_number) as int) % (course_count as int)) as nat
}

/// The course that a worker attempts on a pass.
pub fn course_index(worker_id: usize, pass_number: usize, course_count: usize) -> (idx: usize)
    requires
        course_count > 0,
    ensures
        idx == course_index_spec(worker_id as nat, pass_number as nat, course_count as nat),
        idx < course_count,
{
    let sum: u128 = worker_id as u128 + pass_number as u128;
    let idx: u128 = sum % (course_count as u128);
    idx as usize
}

/// The status lines of a run that has just started: every course waits.
pub open spec fn waiting_lines(names: Seq<Seq<char>>) -> Seq<Seq<char>> {
    names.map_values(|name: Seq<char>| status_line_spec(name, CourseState::Waiting))
}

/// The workers of a fresh pool for `course_count` courses: worker `i` starts
/// at course `i mod course_count`.
pub open spec fn fresh_pool(course_count: nat) -> Seq<Worker> {
    Seq::new(
        WORKER_COUNT as nat,
        |i: int|
            Worker {
                id: i as usize,
                course_idx: course_index_spec(i as nat, 0, course_count) as usize,
            },
    )
}

/// What a worker sends for course `index` of a run. A course without a class
/// type or a secret value sends the empty text in its place.
pub open spec fn request_for(run: RunView, index: int) -> EnrollRequestView
    recommends
        0 <= index < run.courses.len(),
{
    EnrollRequestView {
        token: run.token,
        batch_id: run.batch_id,
        class_type: text_or_empty(run.courses[index].teaching_class_type),
        class_id: run.courses[index].class_id@,
        secret_val: text_or_empty(run.courses[index].secret_val),
        timeout_millis: ATTEMPT_TIMEOUT_MS,
    }
}

impl AppStateView {
    /// Whether the status has one line per target course of the run.
    pub open spec fn hosts(self, run: RunView) -> bool {
        self.enrollment_status.course_statuses.len() == run.courses.len()
    }

    /// The session when a run on the courses of these names has started: a
    /// fresh status in which every course waits, and the stop signal unset.
    pub open spec fn launched(self, names: Seq<Seq<char>>) -> AppStateView {
        AppStateView {
            step: Step::Enrolling,
            should_continue: true,
            enrollment_status: EnrollmentStatusView {
                total_requests: 0,
                course_statuses: waiting_lines(names),
                is_running: true,
            },
            ..self
        }
    }

    /// The session when a worker has looked at the stop signal before an
    /// attempt: while the signal is unset the attempt is counted.
    pub open spec fn begun(self) -> AppStateView {
        if self.should_continue {
            AppStateView {
                enrollment_status: EnrollmentStatusView {
                    total_requests: self.enrollment_status.total_requests + 1,
                    ..self.enrollment_status
                },
                ..self
            }
        } else {
            self
        }
    }

    /// The session when the attempt for course `index` has ended in
    /// `outcome`: the line of that course says so, no other line changes,
    /// and an outcome that settles the run sets the stop signal.
    pub open spec fn finished(self, run: RunView, index: int, outcome: Outcome) -> AppStateView {
        let lines = self.enrollment_status.course_statuses;
        AppStateView {
            should_continue: self.should_continue && !outcome.is_terminal(
                run.try_if_capacity_full,
            ),
            enrollment_status: EnrollmentStatusView {
                course_statuses: if 0 <= index < lines.len() && index < run.courses.len() {
                    lines.update(
                        index,
                        status_line_spec(
                            run.names()[index],
                            outcome.course_state(run.try_if_capacity_full),
                        ),
                    )
                } else {
                    lines
                },
                ..self.enrollment_status
            },
            ..self
        }
    }

    /// The session when the run has been stopped: the stop signal is set and
    /// the status no longer runs. The lines and the count stay.
    pub open spec fn halted(self) -> AppStateView {
        AppStateView {
            step: if self.step == Step::Enrolling {
                Step::CourseSelection
            } else {
                self.step
            },
            should_continue: false,
            enrollment_status: EnrollmentStatusView {
                is_running: false,
                ..self.enrollment_status
            },
            ..self
        }
    }
}

impl Worker {
    /// The worker after one more pass over a list of `course_count` courses.
    pub open spec fn advanced(self, course_count: nat) -> Worker {
        Worker {
            id: self.id,
            course_idx: (((self.course_idx + 1) as int) % (course_count as int)) as usize,
        }
    }

    /// Moves the worker on to the next course, round the list.
    pub fn advance(&mut self, course_count: usize)
        requires
            old(self).course_idx < course_count,
        ensures
            *final(self) == old(self).advanced(course_count as nat),
            final(self).course_idx < course_count,
    {
        self.course_idx = (self.course_idx + 1) % course_count;
    }
}

/// The workers of a fresh pool.
fn make_pool(course_count: usize) -> (pool: Vec<Worker>)
    requires
        course_count > 0,
    ensures
        pool@ == fresh_pool(course_count as nat),
{
    let mut pool: Vec<Worker> = Vec::new();
    let mut i: usize = 0;
    while i < WORKER_COUNT
        invariant
            i <= WORKER_COUNT,
            course_count > 0,
            pool@.len() == i,
            forall|k: int| 0 <= k < i ==> pool@[k] == fresh_pool(course_count as nat)[k],
        decreases WORKER_COUNT - i,
    {
        let idx = course_index(i, 0, course_count);
        pool.push(Worker { id: i, course_idx: idx });
        i = i + 1;
    }
    pool
}

/// The status lines of a run that has just started.
fn make_waiting_lines(courses: &Vec<CourseInfo>) -> (lines: Vec<String>)
    ensures
        texts(lines@) == waiting_lines(course_names(courses@)),
{
    let mut lines: Vec<String> = Vec::new();
    let mut i: usize = 0;
    while i < courses.len()
        invariant
            i <= courses.len(),
            lines@.len() == i,
            forall|k: int|
                0 <= k < i ==> lines@[k]@ == status_line_spec(
                    courses@[k].course_name@,
                    CourseState::Waiting,
                ),
        decreases courses.len() - i,
    {
        lines.push(status_line(courses[i].course_name.as_str(), CourseState::Waiting));
        i = i + 1;
    }
    lines
}

/// Whether an optional string is absent or empty.
fn is_missing(part: &Option<String>) -> (r: bool)
    ensures
        r == missing(crate::text::opt_text(*part)),
{
    match part {
        Some(text) => text.as_str().is_empty(),
        None => true,
    }
}

/// Starts a run on `courses`, unless one is active.
///
/// While a run is active the call changes nothing and hands back the
/// current status, without a run or workers. With no course to enroll in it
/// changes nothing either. A session without a token or without a round is
/// refused. Otherwise the status is made fresh, with every course waiting,
/// the stop signal is unset, and the run and its pool of workers are handed
/// back.
pub fn enroll_courses(
    courses: Vec<CourseInfo>,
    try_if_capacity_full: bool,
    app_state: &mut AppState,
) -> (r: Result<Launch, ErrorKind>)
    ensures
        match start_verdict(old(app_state)@, courses@.len()) {
            StartVerdict::AlreadyRunning | StartVerdict::NothingToDo => {
                &&& r is Ok
                &&& r->Ok_0.run is None
                &&& r->Ok_0.workers@.len() == 0
                &&& r->Ok_0.status@ == old(app_state)@.enrollment_status
                &&& final(app_state)@ == old(app_state)@
            },
            StartVerdict::NoToken => {
                &&& r is Err
                &&& r->Err_0@ == ErrorKindView::ParseError("No token available"@)
                &&& final(app_state)@ == old(app_state)@
            },
            StartVerdict::NoBatch => {
                &&& r is Err
                &&& r->Err_0@ == ErrorKindView::ParseError("No batch id selected"@)
                &&& final(app_state)@ == old(app_state)@
            },
            StartVerdict::Go => {
                &&& r is Ok
                &&& r->Ok_0.run is Some
                &&& r->Ok_0.run->0@ == (RunView {
                    courses: courses@,
                    try_if_capacity_full,
                    token: old(app_state)@.token->0,
                    batch_id: old(app_state)@.batch_id->0,
                })
                &&& r->Ok_0.workers@ == fresh_pool(courses@.len())
                &&& final(app_state)@ == old(app_state)@.launched(course_names(courses@))
                &&& r->Ok_0.status@ == final(app_state)@.enrollment_status
                &&& final(app_state)@.hosts(r->Ok_0.run->0@)
            },
        },
        old(app_state)@.wf() ==> final(app_state)@.wf(),
{
    if app_state.enrollment_status.is_running || courses.len() == 0 {
        return Ok(
            Launch { status: app_state.enrollment_status.clone(), run: None, workers: Vec::new() },
        );
    }
    if is_missing(&app_state.token) {
        return Err(ErrorKind::ParseError("No token available".to_string()));
    }
    if is_missing(&app_state.batch_id) {
        return Err(ErrorKind::ParseError("No batch id selected".to_string()));
    }
    let token = copy_or_empty(&app_state.token);
    let batch_id = copy_or_empty(&app_state.batch_id);
    let lines = make_waiting_lines(&courses);
    let workers = make_pool(courses.len());
    app_state.step = Step::Enrolling;
    app_state.should_continue = true;
    app_state.enrollment_status =
    EnrollmentStatus { total_requests: 0, course_statuses: lines, is_running: true };
    let status = app_state.enrollment_status.clone();
    let run = Run { courses, try_if_capacity_full, token, batch_id };
    Ok(Launch { status, run: Some(run), workers })
}

/// Stops the run: sets the stop signal and marks the status as not running.
/// Requests that are under way end as they would have.
pub fn stop_enrollment(app_state: &mut AppState)
    ensures
        final(app_state)@ == old(app_state)@.halted(),
        old(app_state)@.wf() ==> final(app_state)@.wf(),
{
    if app_state.step == Step::Enrolling {
        app_state.step = Step::CourseSelection;
    }
    app_state.should_continue = false;
    app_state.enrollment_status.is_running = false;
}

/// A worker's look at the stop signal before an attempt.
///
/// With the signal set the worker gets nothing to send and nothing changes.
/// Otherwise the attempt is counted and the worker gets the request for its
/// course.
pub fn begin_attempt(run: &Run, worker: &Worker, app_state: &mut AppState) -> (r: Option<
    EnrollRequest,
>)
    requires
        worker.course_idx < run.courses@.len(),
        old(app_state).enrollment_status.total_requests < u64::MAX,
    ensures
        final(app_state)@ == old(app_state)@.begun(),
        r is Some <==> old(app_state).should_continue,
        r is Some ==> r->0@ == request_for(run@, worker.course_idx as int),
        old(app_state)@.wf() ==> final(app_state)@.wf(),
{
    if !app_state.should_continue {
        return None;
    }
    app_state.enrollment_status.total_requests = app_state.enrollment_status.total_requests + 1;
    let course = &run.courses[worker.course_idx];
    Some(
        EnrollRequest {
            token: run.token.clone(),
            batch_id: run.batch_id.clone(),
            class_type: copy_or_empty(&course.teaching_class_type),
            class_id: course.class_id.clone(),
            secret_val: copy_or_empty(&course.secret_val),
            timeout_millis: ATTEMPT_TIMEOUT_MS,
        },
    )
}

/// A worker's report of how its attempt ended.
///
/// The outcome is written to the line of the worker's course, and an outcome
/// that settles the run sets the stop signal. Then the worker looks at the
/// signal: with the signal set it exits where it stands; otherwise it moves
/// on to the next course and waits before the next attempt.
pub fn finish_attempt(
    run: &Run,
    worker: &mut Worker,
    result: &AttemptResult,
    app_state: &mut AppState,
) -> (action: WorkerAction)
    requires
        old(worker).course_idx < run.courses@.len(),
        old(app_state)@.hosts(run@),
    ensures
        final(app_state)@ == old(app_state)@.finished(
            run@,
            old(worker).course_idx as int,
            outcome_of(result@),
        ),
        final(app_state)@.hosts(run@),
        final(app_state)@.should_continue ==> action == (WorkerAction::Wait {
            millis: ATTEMPT_DELAY_MS,
        }) && *final(worker) == old(worker).advanced(run.courses@.len()),
        !final(app_state)@.should_continue ==> action == WorkerAction::Exit && *final(worker)
            == *old(worker),
        final(worker).course_idx < run.courses@.len(),
        old(app_state)@.wf() ==> final(app_state)@.wf(),
{
    let outcome = result.outcome();
    let retry = run.try_if_capacity_full;
    if outcome.is_terminal(retry) {
        app_state.should_continue = false;
    }
    let idx = worker.course_idx;
    let line = status_line(run.courses[idx].course_name.as_str(), outcome.course_state(retry));
    app_state.enrollment_status.course_statuses.set(idx, line);
    proof {
        assert(texts(app_state.enrollment_status.course_statuses@) =~= texts(
            old(app_state).enrollment_status.course_statuses@,
        ).update(idx as int, line@));
    }
    if !app_state.should_continue {
        return WorkerAction::Exit;
    }
    worker.advance(run.courses.len());
    WorkerAction::Wait { millis: ATTEMPT_DELAY_MS }
}

} // verus!
