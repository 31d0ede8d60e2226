use funky_lesson::outcome::{
    classify, recognise, status_line, AttemptResult, CourseState, Outcome, PortalMessage,
};

fn replied(code: i64, msg: &str) -> AttemptResult {
    AttemptResult::Replied { code: Some(code), msg: Some(msg.to_string()) }
}

#[test]
fn recognises_the_four_messages_in_plain_words() {
    assert_eq!(recognise("already in result set"), PortalMessage::AlreadyInResults);
    assert_eq!(recognise("round not yet started"), PortalMessage::RoundNotStarted);
    assert_eq!(recognise("capacity full"), PortalMessage::CapacityFull);
    assert_eq!(recognise("parameter validation failed"), PortalMessage::ParamsRejected);
}

#[test]
fn recognises_the_four_messages_in_the_portals_words() {
    assert_eq!(recognise("该课程已在选课结果中"), PortalMessage::AlreadyInResults);
    assert_eq!(recognise("本轮次选课暂未开始"), PortalMessage::RoundNotStarted);
    assert_eq!(recognise("课容量已满"), PortalMessage::CapacityFull);
    assert_eq!(recognise("参数校验不通过"), PortalMessage::ParamsRejected);
}

#[test]
fn any_other_message_is_other() {
    assert_eq!(recognise(""), PortalMessage::Other);
    assert_eq!(recognise("课容量已满 "), PortalMessage::Other);
    assert_eq!(recognise("Capacity full"), PortalMessage::Other);
    assert_eq!(recognise("capacity full."), PortalMessage::Other);
    assert_eq!(recognise("full"), PortalMessage::Other);
}

#[test]
fn code_200_is_success_whatever_the_message() {
    assert_eq!(replied(200, "").outcome(), Outcome::Success);
    assert_eq!(replied(200, "课容量已满").outcome(), Outcome::Success);
    assert_eq!(classify(200, PortalMessage::Other), Outcome::Success);
}

#[test]
fn code_401_is_not_logged_in_whatever_the_message() {
    assert_eq!(replied(401, "").outcome(), Outcome::NotLoggedIn);
    assert_eq!(replied(401, "该课程已在选课结果中").outcome(), Outcome::NotLoggedIn);
}

#[test]
fn code_500_goes_by_its_message_in_plain_words() {
    assert_eq!(replied(500, "already in result set").outcome(), Outcome::AlreadyEnrolled);
    assert_eq!(replied(500, "round not yet started").outcome(), Outcome::NotStarted);
    assert_eq!(replied(500, "capacity full").outcome(), Outcome::CapacityFull);
    assert_eq!(replied(500, "parameter validation failed").outcome(), Outcome::ParamError);
    assert_eq!(replied(200, "capacity full").outcome(), Outcome::Success);
    assert_eq!(replied(401, "capacity full").outcome(), Outcome::NotLoggedIn);
    assert_eq!(replied(404, "capacity full").outcome(), Outcome::GenericFailure);
}

#[test]
fn code_500_goes_by_its_message() {
    assert_eq!(replied(500, "该课程已在选课结果中").outcome(), Outcome::AlreadyEnrolled);
    assert_eq!(replied(500, "本轮次选课暂未开始").outcome(), Outcome::NotStarted);
    assert_eq!(replied(500, "课容量已满").outcome(), Outcome::CapacityFull);
    assert_eq!(replied(500, "参数校验不通过").outcome(), Outcome::ParamError);
    assert_eq!(replied(500, "something else").outcome(), Outcome::GenericFailure);
}

#[test]
fn other_codes_are_generic_failures() {
    assert_eq!(replied(0, "课容量已满").outcome(), Outcome::GenericFailure);
    assert_eq!(replied(404, "").outcome(), Outcome::GenericFailure);
    assert_eq!(replied(-1, "该课程已在选课结果中").outcome(), Outcome::GenericFailure);
    assert_eq!(replied(i64::MAX, "").outcome(), Outcome::GenericFailure);
}

#[test]
fn a_missing_code_counts_as_zero_and_a_missing_message_as_empty() {
    let no_code = AttemptResult::Replied { code: None, msg: Some("课容量已满".to_string()) };
    assert_eq!(no_code.outcome(), Outcome::GenericFailure);
    let no_msg = AttemptResult::Replied { code: Some(500), msg: None };
    assert_eq!(no_msg.outcome(), Outcome::GenericFailure);
    let success = AttemptResult::Replied { code: Some(200), msg: None };
    assert_eq!(success.outcome(), Outcome::Success);
}

#[test]
fn a_failed_exchange_is_a_request_error() {
    assert_eq!(AttemptResult::Failed.outcome(), Outcome::RequestError);
}

#[test]
fn terminal_outcomes() {
    for retry in [false, true] {
        assert!(Outcome::Success.is_terminal(retry));
        assert!(Outcome::AlreadyEnrolled.is_terminal(retry));
        assert!(Outcome::NotLoggedIn.is_terminal(retry));
        assert!(!Outcome::NotStarted.is_terminal(retry));
        assert!(!Outcome::ParamError.is_terminal(retry));
        assert!(!Outcome::RequestError.is_terminal(retry));
        assert!(!Outcome::GenericFailure.is_terminal(retry));
    }
    assert!(Outcome::CapacityFull.is_terminal(false));
    assert!(!Outcome::CapacityFull.is_terminal(true));
}

#[test]
fn course_states_of_outcomes() {
    assert_eq!(Outcome::Success.course_state(true), CourseState::Success);
    assert_eq!(Outcome::AlreadyEnrolled.course_state(true), CourseState::AlreadyEnrolled);
    assert_eq!(Outcome::NotStarted.course_state(false), CourseState::NotStarted);
    assert_eq!(Outcome::ParamError.course_state(false), CourseState::ParamError);
    assert_eq!(Outcome::NotLoggedIn.course_state(true), CourseState::NotLoggedIn);
    assert_eq!(Outcome::GenericFailure.course_state(true), CourseState::GenericFailure);
    assert_eq!(Outcome::RequestError.course_state(false), CourseState::RequestError);
    assert_eq!(Outcome::CapacityFull.course_state(false), CourseState::CapacityFull);
    assert_eq!(Outcome::CapacityFull.course_state(true), CourseState::Waiting);
}

#[test]
fn labels_of_course_states() {
    assert_eq!(CourseState::Waiting.label(), "等待中");
    assert_eq!(CourseState::Success.label(), "选课成功");
    assert_eq!(CourseState::AlreadyEnrolled.label(), "已选");
    assert_eq!(CourseState::CapacityFull.label(), "已满");
    assert_eq!(CourseState::NotLoggedIn.label(), "未登录");
    assert_eq!(CourseState::ParamError.label(), "参数错误");
    assert_eq!(CourseState::NotStarted.label(), "未开始");
    assert_eq!(CourseState::RequestError.label(), "请求错误");
    assert_eq!(CourseState::GenericFailure.label(), "失败");
}

#[test]
fn status_line_is_name_in_brackets_then_label() {
    assert_eq!(status_line("高等数学", CourseState::Waiting), "[高等数学]等待中");
    assert_eq!(status_line("Algebra", CourseState::Success), "[Algebra]选课成功");
    assert_eq!(status_line("", CourseState::GenericFailure), "[]失败");
}
