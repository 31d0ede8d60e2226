//! The data that the portal hands out and the status of a run.

use vstd::prelude::*;
use crate::text::{copy_opt, copy_strings, opt_text, texts};

verus! {

/// An enrollment round of the portal.
#[derive(Debug)]
pub struct BatchInfo {
    pub code: String,
    pub name: String,
    pub begin_time: String,
    pub end_time: String,
}

/// The mathematical model of a `BatchInfo`.
pub struct BatchInfoView {
    pub code: Seq<char>,
    pub name: Seq<char>,
    pub begin_time: Seq<char>,
    pub end_time: Seq<char>,
}

impl View for BatchInfo {
    type V = BatchInfoView;

    open spec fn view(&self) -> BatchInfoView {
        BatchInfoView {
            code: self.code@,
            name: self.name@,
            begin_time: self.begin_time@,
            end_time: self.end_time@,
        }
    }
}

impl Clone for BatchInfo {
    fn clone(&self) -> (r: Self)
        ensures
            r == *self,
    {
        BatchInfo {
            code: self.code.clone(),
            name: self.name.clone(),
            begin_time: self.begin_time.clone(),
            end_time: self.end_time.clone(),
        }
    }
}

/// One section that a student can enroll in.
#[derive(Debug)]
pub struct CourseInfo {
    pub teacher_name: String,
    pub course_name: String,
    pub class_id: String,
    pub teaching_class_type: Option<String>,
    pub secret_val: Option<String>,
}

/// The mathematical model of a `CourseInfo`.
pub struct CourseInfoView {
    pub teacher_name: Seq<char>,
    pub course_name: Seq<char>,
    pub class_id: Seq<char>,
    pub teaching_class_type: Option<Seq<char>>,
    pub secret_val: Option<Seq<char>>,
}

impl View for CourseInfo {
    type V = CourseInfoView;

    open spec fn view(&self) -> CourseInfoView {
        CourseInfoView {
            teacher_name: self.teacher_name@,
            course_name: self.course_name@,
            class_id: self.class_id@,
            teaching_class_type: opt_text(self.teaching_class_type),
            secret_val: opt_text(self.secret_val),
        }
    }
}

impl Clone for CourseInfo {
    fn clone(&self) -> (r: Self)
        ensures
            r == *self,
    {
        CourseInfo {
            teacher_name: self.teacher_name.clone(),
            course_name: self.course_name.clone(),
            class_id: self.class_id.clone(),
            teaching_class_type: copy_opt(&self.teaching_class_type),
            secret_val: copy_opt(&self.secret_val),
        }
    }
}

/// The names of a list of courses, in order.
pub open spec fn course_names(courses: Seq<CourseInfo>) -> Seq<Seq<char>> {
    courses.map_values(|c: CourseInfo| c.course_name@)
}

/// A copy of a list of batches.
pub fn copy_batches(v: &Vec<BatchInfo>) -> (r: Vec<BatchInfo>)
    ensures
        r@ == v@,
{
    let mut out: Vec<BatchInfo> = Vec::new();
    let mut i: usize = 0;
    while i < v.len()
        invariant
            i <= v.len(),
            out@ == v@.subrange(0, i as int),
        decreases v.len() - i,
    {
        out.push(v[i].clone());
        i = i + 1;
    }
    out
}

/// A copy of a list of courses.
pub fn copy_courses(v: &Vec<CourseInfo>) -> (r: Vec<CourseInfo>)
    ensures
        r@ == v@,
{
    let mut out: Vec<CourseInfo> = Vec::new();
    let mut i: usize = 0;
    while i < v.len()
        invariant
            i <= v.len(),
            out@ == v@.subrange(0, i as int),
        decreases v.len() - i,
    {
        out.push(v[i].clone());
        i = i + 1;
    }
    out
}

/// The progress of a run: how many attempts were made, and one status line
/// per target course, in the order of the course list.
#[derive(Debug)]
pub struct EnrollmentStatus {
    pub total_requests: u64,
    pub course_statuses: Vec<String>,
    pub is_running: bool,
}

/// The mathematical model of an `EnrollmentStatus`.
pub struct EnrollmentStatusView {
    pub total_requests: nat,
    pub course_statuses: Seq<Seq<char>>,
    pub is_running: bool,
}

impl View for EnrollmentStatus {
    type V = EnrollmentStatusView;

    open spec fn view(&self) -> EnrollmentStatusView {
        EnrollmentStatusView {
            total_requests: self.total_requests as nat,
            course_statuses: texts(self.course_statuses@),
            is_running: self.is_running,
        }
    }
}

impl EnrollmentStatusView {
    /// The status before any run: nothing counted, no line, not running.
    pub open spec fn idle() -> EnrollmentStatusView {
        EnrollmentStatusView {
            total_requests: 0,
            course_statuses: Seq::empty(),
            is_running: false,
        }
    }
}

impl Clone for EnrollmentStatus {
    fn clone(&self) -> (r: Self)
        ensures
            r@ == self@,
            r.course_statuses@ == self.course_statuses@,
    {
        EnrollmentStatus {
            total_requests: self.total_requests,
            course_statuses: copy_strings(&self.course_statuses),
            is_running: self.is_running,
        }
    }
}

impl Default for EnrollmentStatus {
    fn default() -> (r: Self)
        ensures
            r@ == EnrollmentStatusView::idle(),
    {
        let r = EnrollmentStatus {
            total_requests: 0,
            course_statuses: Vec::new(),
            is_running: false,
        };
        assert(texts(r.course_statuses@) =~= Seq::empty());
        r
    }
}

/// What a student types to log in. Used once per attempt.
#[derive(Debug)]
pub struct Credentials {
    pub username: String,
    pub password: String,
    pub captcha_code: String,
    pub captcha_uuid: String,
}

/// The mathematical model of `Credentials`.
pub struct CredentialsView {
    pub username: Seq<char>,
    pub password: Seq<char>,
    pub captcha_code: Seq<char>,
    pub captcha_uuid: Seq<char>,
}

impl View for Credentials {
    type V = CredentialsView;

    open spec fn view(&self) -> CredentialsView {
        CredentialsView {
            username: self.username@,
            password: self.password@,
            captcha_code: self.captcha_code@,
            captcha_uuid: self.captcha_uuid@,
        }
    }
}

impl CredentialsView {
    /// What the student is asked for before a login is tried: the first of
    /// student number, password and captcha that is empty. `None` where all
    /// three are filled in.
    pub open spec fn prompt(self) -> Option<Seq<char>> {
        if self.username.len() == 0 {
            Some("请输入学号"@)
        } else if self.password.len() == 0 {
            Some("请输入密码"@)
        } else if self.captcha_code.len() == 0 {
            Some("请输入验证码"@)
        } else {
            None
        }
    }
}

impl Credentials {
    /// What the student is asked for before a login is tried.
    pub fn prompt(&self) -> (r: Option<&'static str>)
        ensures
            match self@.prompt() {
                Some(words) => r is Some && r->0@ == words,
                None => r is None,
            },
    {
        if self.username.as_str().is_empty() {
            Some("请输入学号")
        } else if self.password.as_str().is_empty() {
            Some("请输入密码")
        } else if self.captcha_code.as_str().is_empty() {
            Some("请输入验证码")
        } else {
            None
        }
    }
}

/// A captcha as the portal issues it: its identifier and its image, encoded
/// as base64 text.
#[derive(Debug)]
pub struct CaptchaResponse {
    pub uuid: String,
    pub image_base64: String,
}

/// What a successful login hands back: the bearer token and the rounds that
/// are open to the student.
#[derive(Debug)]
pub struct LoginResponse {
    pub token: String,
    pub batch_list: Vec<BatchInfo>,
}

} // verus!
