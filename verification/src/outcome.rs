//! How the portal's answer to one enrollment attempt is read: the mapping
//! from its numeric code and message to an outcome, and from an outcome to
//! the state of the course and to the end of the run.

use vstd::prelude::*;
use vstd::string::StringExecFns;
use crate::text::same_text;

verus! {

/// The messages of the portal that the engine tells apart.
#[derive(Clone, Copy, Debug, PartialEq, Eq, Structural)]
pub enum PortalMessage {
    /// The course is already among the student's results.
    AlreadyInResults,
    /// The round has not started yet.
    RoundNotStarted,
    /// The section has no open seat.
    CapacityFull,
    /// The portal rejected the parameters of the request.
    ParamsRejected,
    /// Any other text.
    Other,
}

/// What one enrollment attempt amounted to.
#[derive(Clone, Copy, Debug, PartialEq, Eq, Structural)]
pub enum Outcome {
    Success,
    AlreadyEnrolled,
    NotStarted,
    CapacityFull,
    ParamError,
    NotLoggedIn,
    GenericFailure,
    RequestError,
}

/// The state of one target course during a run.
#[derive(Clone, Copy, Debug, PartialEq, Eq, Structural)]
pub enum CourseState {
    Waiting,
    Success,
    AlreadyEnrolled,
    CapacityFull,
    NotLoggedIn,
    ParamError,
    NotStarted,
    RequestError,
    GenericFailure,
}

/// What the portal answered to one attempt, or that no answer could be read.
#[derive(Debug)]
pub enum AttemptResult {
    /// An answer came. Either field is `None` where the answer lacks it or
    /// holds a value of another kind.
    Replied { code: Option<i64>, msg: Option<String> },
    /// The transport failed, or the answer could not be decoded.
    Failed,
}

/// The mathematical model of an `AttemptResult`.
pub enum AttemptResultView {
    Replied { code: Option<i64>, msg: Option<Seq<char>> },
    Failed,
}

impl View for AttemptResult {
    type V = AttemptResultView;

    open spec fn view(&self) -> AttemptResultView {
        match *self {
            AttemptResult::Replied { code, msg } => AttemptResultView::Replied {
                code,
                msg: crate::text::opt_text(msg),
            },
            AttemptResult::Failed => AttemptResultView::Failed,
        }
    }
}

/// Which of the known messages a text is. Each message is known in two
/// wordings, the plain one and the portal's own.
pub open spec fn recognise_spec(msg: Seq<char>) -> PortalMessage {
    if msg == "already in result set"@ || msg == "该课程已在选课结果中"@ {
        PortalMessage::AlreadyInResults
    } else if msg == "round not yet started"@ || msg == "本轮次选课暂未开始"@ {
        PortalMessage::RoundNotStarted
    } else if msg == "capacity full"@ || msg == "课容量已满"@ {
        PortalMessage::CapacityFull
    } else if msg == "parameter validation failed"@ || msg == "参数校验不通过"@ {
        PortalMessage::ParamsRejected
    } else {
        PortalMessage::Other
    }
}

/// Which of the known messages a text is.
pub fn recognise(msg: &str) -> (m: PortalMessage)
    ensures
        m == recognise_spec(msg@),
{
    if same_text(msg, "already in result set") || same_text(msg, "该课程已在选课结果中") {
        PortalMessage::AlreadyInResults
    } else if same_text(msg, "round not yet started") || same_text(msg, "本轮次选课暂未开始") {
        PortalMessage::RoundNotStarted
    } else if same_text(msg, "capacity full") || same_text(msg, "课容量已满") {
        PortalMessage::CapacityFull
    } else if same_text(msg, "parameter validation failed") || same_text(msg, "参数校验不通过") {
        PortalMessage::ParamsRejected
    } else {
        PortalMessage::Other
    }
}

/// The eight known wordings, each with the message it is.
pub proof fn lemma_known_messages()
    ensures
        recognise_spec("already in result set"@) == PortalMessage::AlreadyInResults,
        recognise_spec("该课程已在选课结果中"@) == PortalMessage::AlreadyInResults,
        recognise_spec("round not yet started"@) == PortalMessage::RoundNotStarted,
        recognise_spec("本轮次选课暂未开始"@) == PortalMessage::RoundNotStarted,
        recognise_spec("capacity full"@) == PortalMessage::CapacityFull,
        recognise_spec("课容量已满"@) == PortalMessage::CapacityFull,
        recognise_spec("parameter validation failed"@) == PortalMessage::ParamsRejected,
        recognise_spec("参数校验不通过"@) == PortalMessage::ParamsRejected,
{
    reveal_strlit("already in result set");
    reveal_strlit("该课程已在选课结果中");
    reveal_strlit("round not yet started");
    reveal_strlit("本轮次选课暂未开始");
    reveal_strlit("capacity full");
    reveal_strlit("课容量已满");
    reveal_strlit("parameter validation failed");
    reveal_strlit("参数校验不通过");
    assert("already in result set"@.len() == 21 && "already in result set"@[0] == 'a');
    assert("round not yet started"@.len() == 21 && "round not yet started"@[0] == 'r');
    assert("capacity full"@.len() == 13);
    assert("parameter validation failed"@.len() == 27);
    assert("该课程已在选课结果中"@.len() == 10);
    assert("本轮次选课暂未开始"@.len() == 9);
    assert("课容量已满"@.len() == 5);
    assert("参数校验不通过"@.len() == 7);
}

/// The outcome that a code and a message stand for. Code 200 is a success
/// and code 401 a missing login, whatever the message; code 500 goes by its
/// message; everything else is a failure of no particular kind.
pub open spec fn classify_spec(code: int, msg: PortalMessage) -> Outcome {
    if code == 200 {
        Outcome::Success
    } else if code == 401 {
        Outcome::NotLoggedIn
    } else if code == 500 {
        match msg {
            PortalMessage::AlreadyInResults => Outcome::AlreadyEnrolled,
            PortalMessage::RoundNotStarted => Outcome::NotStarted,
            PortalMessage::CapacityFull => Outcome::CapacityFull,
            PortalMessage::ParamsRejected => Outcome::ParamError,
            PortalMessage::Other => Outcome::GenericFailure,
        }
    } else {
        Outcome::GenericFailure
    }
}

/// The outcome that a code and a message stand for.
pub fn classify(code: i64, msg: PortalMessage) -> (o: Outcome)
    ensures
        o == classify_spec(code as int, msg),
{
    match (code, msg) {
        (200, _) => Outcome::Success,
        (401, _) => Outcome::NotLoggedIn,
        (500, PortalMessage::AlreadyInResults) => Outcome::AlreadyEnrolled,
        (500, PortalMessage::RoundNotStarted) => Outcome::NotStarted,
        (500, PortalMessage::CapacityFull) => Outcome::CapacityFull,
        (500, PortalMessage::ParamsRejected) => Outcome::ParamError,
        _ => Outcome::GenericFailure,
    }
}

/// The outcome of an attempt. A missing code counts as 0 and a missing
/// message as the empty text; an attempt without an answer is a request
/// error.
pub open spec fn outcome_of(result: AttemptResultView) -> Outcome {
    match result {
        AttemptResultView::Replied { code, msg } => classify_spec(
            match code {
                Some(c) => c as int,
                None => 0,
            },
            recognise_spec(
                match msg {
                    Some(m) => m,
                    None => Seq::empty(),
                },
            ),
        ),
        AttemptResultView::Failed => Outcome::RequestError,
    }
}

impl AttemptResult {
    /// The outcome of the attempt.
    pub fn outcome(&self) -> (o: Outcome)
        ensures
            o == outcome_of(self@),
    {
        match self {
            AttemptResult::Replied { code, msg } => {
                let c: i64 = match code {
                    Some(c) => *c,
                    None => 0,
                };
                let m = match msg {
                    Some(m) => recognise(m.as_str()),
                    None => {
                        let empty = String::new();
                        recognise(empty.as_str())
                    },
                };
                classify(c, m)
            },
            AttemptResult::Failed => Outcome::RequestError,
        }
    }
}

impl Outcome {
    /// Whether the outcome ends the whole run. Success, an enrollment that
    /// exists already and a missing login always do; a full section does
    /// unless full sections are tried again.
    pub open spec fn spec_is_terminal(self, retry_if_full: bool) -> bool {
        match self {
            Outcome::Success => true,
            Outcome::AlreadyEnrolled => true,
            Outcome::NotLoggedIn => true,
            Outcome::CapacityFull => !retry_if_full,
            _ => false,
        }
    }

    /// Whether the outcome ends the whole run.
    #[verifier::when_used_as_spec(spec_is_terminal)]
    pub fn is_terminal(self, retry_if_full: bool) -> (r: bool)
        ensures
            r == self.spec_is_terminal(retry_if_full),
    {
        match self {
            Outcome::Success => true,
            Outcome::AlreadyEnrolled => true,
            Outcome::NotLoggedIn => true,
            Outcome::CapacityFull => !retry_if_full,
            _ => false,
        }
    }

    /// The state that the outcome leaves the course in. A full section that
    /// is tried again goes back to waiting.
    pub open spec fn spec_course_state(self, retry_if_full: bool) -> CourseState {
        match self {
            Outcome::Success => CourseState::Success,
            Outcome::AlreadyEnrolled => CourseState::AlreadyEnrolled,
            Outcome::NotStarted => CourseState::NotStarted,
            Outcome::CapacityFull => if retry_if_full {
                CourseState::Waiting
            } else {
                CourseState::CapacityFull
            },
            Outcome::ParamError => CourseState::ParamError,
            Outcome::NotLoggedIn => CourseState::NotLoggedIn,
            Outcome::GenericFailure => CourseState::GenericFailure,
            Outcome::RequestError => CourseState::RequestError,
        }
    }

    /// The state that the outcome leaves the course in.
    #[verifier::when_used_as_spec(spec_course_state)]
    pub fn course_state(self, retry_if_full: bool) -> (s: CourseState)
        ensures
            s == self.spec_course_state(retry_if_full),
    {
        match self {
            Outcome::Success => CourseState::Success,
            Outcome::AlreadyEnrolled => CourseState::AlreadyEnrolled,
            Outcome::NotStarted => CourseState::NotStarted,
            Outcome::CapacityFull => if retry_if_full {
                CourseState::Waiting
            } else {
                CourseState::CapacityFull
            },
            Outcome::ParamError => CourseState::ParamError,
            Outcome::NotLoggedIn => CourseState::NotLoggedIn,
            Outcome::GenericFailure => CourseState::GenericFailure,
            Outcome::RequestError => CourseState::RequestError,
        }
    }
}

impl CourseState {
    /// The words that the state is shown with.
    pub open spec fn spec_label(self) -> Seq<char> {
        match self {
            CourseState::Waiting => "等待中"@,
            CourseState::Success => "选课成功"@,
            CourseState::AlreadyEnrolled => "已选"@,
            CourseState::CapacityFull => "已满"@,
            CourseState::NotLoggedIn => "未登录"@,
            CourseState::ParamError => "参数错误"@,
            CourseState::NotStarted => "未开始"@,
            CourseState::RequestError => "请求错误"@,
            CourseState::GenericFailure => "失败"@,
        }
    }

    /// The words that the state is shown with.
    pub fn label(self) -> (r: &'static str)
        ensures
            r@ == self.spec_label(),
    {
        match self {
            CourseState::Waiting => "等待中",
            CourseState::Success => "选课成功",
            CourseState::AlreadyEnrolled => "已选",
            CourseState::CapacityFull => "已满",
            CourseState::NotLoggedIn => "未登录",
            CourseState::ParamError => "参数错误",
            CourseState::NotStarted => "未开始",
            CourseState::RequestError => "请求错误",
            CourseState::GenericFailure => "失败",
        }
    }
}

/// The status line of a course: its name in square brackets, then the words
/// of its state.
pub open spec fn status_line_spec(name: Seq<char>, state: CourseState) -> Seq<char> {
    "["@ + name + "]"@ + state.spec_label()
}

/// The status line of a course.
pub fn status_line(name: &str, state: CourseState) -> (r: String)
    ensures
        r@ == status_line_spec(name@, state),
{
    let mut line = String::from_str("[");
    line.append(name);
    line.append("]");
    line.append(state.label());
    line
}

} // verus!
