//! The session state machine: which step the student is at, what the session
//! holds there, and what going back clears.

use vstd::prelude::*;
use crate::model::{BatchInfo, CourseInfo, EnrollmentStatus, EnrollmentStatusView};
use crate::text::opt_text;

verus! {

/// The step of the workflow that the student is at.
#[derive(Clone, Copy, Debug, PartialEq, Eq, Structural)]
pub enum Step {
    LoggedOut,
    BatchSelection,
    CourseSelection,
    Enrolling,
}

/// Everything the session holds: the bearer token and the chosen round, the
/// lists that the portal handed out, and the shared state of a run.
#[derive(Debug)]
pub struct AppState {
    pub step: Step,
    pub token: Option<String>,
    pub batch_id: Option<String>,
    pub batch_list: Vec<BatchInfo>,
    pub selected_courses: Vec<CourseInfo>,
    pub favorite_courses: Vec<CourseInfo>,
    pub enrollment_status: EnrollmentStatus,
    /// The stop signal, inverted: workers go on while it is `true`.
    pub should_continue: bool,
}

/// The mathematical model of an `AppState`.
pub struct AppStateView {
    pub step: Step,
    pub token: Option<Seq<char>>,
    pub batch_id: Option<Seq<char>>,
    pub batch_list: Seq<BatchInfo>,
    pub selected_courses: Seq<CourseInfo>,
    pub favorite_courses: Seq<CourseInfo>,
    pub enrollment_status: EnrollmentStatusView,
    pub should_continue: bool,
}

impl View for AppState {
    type V = AppStateView;

    open spec fn view(&self) -> AppStateView {
        AppStateView {
            step: self.step,
            token: opt_text(self.token),
            batch_id: opt_text(self.batch_id),
            batch_list: self.batch_list@,
            selected_courses: self.selected_courses@,
            favorite_courses: self.favorite_courses@,
            enrollment_status: self.enrollment_status@,
            should_continue: self.should_continue,
        }
    }
}

impl AppStateView {
    /// The session of a student who has not logged in: nothing is held.
    pub open spec fn logged_out() -> AppStateView {
        AppStateView {
            step: Step::LoggedOut,
            token: None,
            batch_id: None,
            batch_list: Seq::empty(),
            selected_courses: Seq::empty(),
            favorite_courses: Seq::empty(),
            enrollment_status: EnrollmentStatusView::idle(),
            should_continue: false,
        }
    }

    /// The session after a step back to the choice of a round: the round,
    /// the course lists and the status are gone, the token and the list of
    /// rounds stay. A student who had not logged in stays logged out.
    pub open spec fn back_at_batches(self) -> AppStateView {
        AppStateView {
            step: if self.step == Step::LoggedOut {
                Step::LoggedOut
            } else {
                Step::BatchSelection
            },
            token: self.token,
            batch_id: None,
            batch_list: self.batch_list,
            selected_courses: Seq::empty(),
            favorite_courses: Seq::empty(),
            enrollment_status: EnrollmentStatusView::idle(),
            should_continue: false,
        }
    }

    /// What the step promises of the session: a token from the choice of a
    /// round on, a round from the choice of courses on, and a run in progress
    /// exactly while enrolling.
    pub open spec fn wf(self) -> bool {
        match self.step {
            Step::LoggedOut => self.token is None && self.batch_id is None
                && !self.enrollment_status.is_running,
            Step::BatchSelection => self.token is Some && self.batch_id is None
                && !self.enrollment_status.is_running,
            Step::CourseSelection => self.token is Some && self.batch_id is Some
                && !self.enrollment_status.is_running,
            Step::Enrolling => self.token is Some && self.batch_id is Some
                && self.enrollment_status.is_running,
        }
    }

    /// The session after one step back. From the choice of a round the
    /// student is logged out; from the choice of courses the student is back
    /// at the choice of a round. There is no way back from the other steps.
    pub open spec fn back(self) -> AppStateView {
        match self.step {
            Step::BatchSelection => AppStateView::logged_out(),
            Step::CourseSelection => self.back_at_batches(),
            _ => self,
        }
    }
}

impl AppState {
    /// A session in which nobody is logged in.
    pub fn new() -> (r: AppState)
        ensures
            r@ == AppStateView::logged_out(),
            r@.wf(),
    {
        AppState {
            step: Step::LoggedOut,
            token: None,
            batch_id: None,
            batch_list: Vec::new(),
            selected_courses: Vec::new(),
            favorite_courses: Vec::new(),
            enrollment_status: EnrollmentStatus::default(),
            should_continue: false,
        }
    }

    /// Clears the whole session and returns to the login step.
    pub fn reset_for_login(&mut self)
        ensures
            final(self)@ == AppStateView::logged_out(),
            final(self)@.wf(),
    {
        self.step = Step::LoggedOut;
        self.token = None;
        self.batch_id = None;
        self.batch_list = Vec::new();
        self.selected_courses = Vec::new();
        self.favorite_courses = Vec::new();
        self.enrollment_status = EnrollmentStatus::default();
        self.should_continue = false;
    }

    /// Clears the chosen round, the course lists and the status, and returns
    /// to the choice of a round. The token and the list of rounds stay.
    pub fn reset_for_batch_selection(&mut self)
        ensures
            final(self)@ == old(self)@.back_at_batches(),
            final(self).token == old(self).token,
            old(self)@.wf() ==> final(self)@.wf(),
    {
        if self.step != Step::LoggedOut {
            self.step = Step::BatchSelection;
        }
        self.batch_id = None;
        self.selected_courses = Vec::new();
        self.favorite_courses = Vec::new();
        self.enrollment_status = EnrollmentStatus::default();
        self.should_continue = false;
    }

    /// Goes one step back, where the workflow has a way back.
    pub fn back(&mut self)
        ensures
            final(self)@ == old(self)@.back(),
            old(self)@.wf() ==> final(self)@.wf(),
    {
        match self.step {
            Step::BatchSelection => {
                self.reset_for_login();
            },
            Step::CourseSelection => {
                self.reset_for_batch_selection();
            },
            _ => {},
        }
    }
}

/// Going back from the choice of a round logs the student out: the token,
/// the rounds, the course lists and the status are cleared.
pub proof fn lemma_back_from_batches_clears_all(s: AppStateView)
    requires
        s.step == Step::BatchSelection,
    ensures
        s.back().step == Step::LoggedOut,
        s.back().token is None,
        s.back().batch_id is None,
        s.back().batch_list.len() == 0,
        s.back().selected_courses.len() == 0,
        s.back().favorite_courses.len() == 0,
        s.back().enrollment_status == EnrollmentStatusView::idle(),
        !s.back().should_continue,
{
}

/// Going back from the choice of courses returns to the choice of a round:
/// the round, the course lists and the status are cleared, the token and the
/// list of rounds are kept.
pub proof fn lemma_back_from_courses_keeps_token(s: AppStateView)
    requires
        s.step == Step::CourseSelection,
    ensures
        s.back().step == Step::BatchSelection,
        s.back().token == s.token,
        s.back().batch_list == s.batch_list,
        s.back().batch_id is None,
        s.back().selected_courses.len() == 0,
        s.back().favorite_courses.len() == 0,
        s.back().enrollment_status == EnrollmentStatusView::idle(),
        !s.back().should_continue,
{
}

} // verus!
