use funky_lesson::client::{
    get_courses, login, set_batch, CourseListReply, LoginReply, Message,
};
use funky_lesson::engine::enroll_courses;
use funky_lesson::error::ErrorKind;
use funky_lesson::model::{BatchInfo, CaptchaResponse, CourseInfo, Credentials, EnrollmentStatus, LoginResponse};
use funky_lesson::state::{AppState, Step};

fn course(name: &str) -> CourseInfo {
    CourseInfo {
        teacher_name: "T".to_string(),
        course_name: name.to_string(),
        class_id: "id".to_string(),
        teaching_class_type: Some("K".to_string()),
        secret_val: None,
    }
}

fn at_courses() -> AppState {
    let mut state = AppState::new();
    let reply = LoginReply {
        code: Some(200),
        msg: Message::Text("登录成功".to_string()),
        token: Some("tok".to_string()),
        batch_list: Ok(vec![BatchInfo {
            code: "b1".to_string(),
            name: "round".to_string(),
            begin_time: String::new(),
            end_time: String::new(),
        }]),
    };
    login(reply, &mut state).unwrap();
    set_batch(0, Some(200), &mut state).unwrap();
    let selected = CourseListReply {
        code: Some(200),
        msg: Message::Other("null".to_string()),
        data: Ok(vec![course("S")]),
    };
    let favorite = CourseListReply {
        code: Some(200),
        msg: Message::Other("null".to_string()),
        data: Ok(vec![course("F")]),
    };
    get_courses(selected, favorite, &mut state).unwrap();
    state
}

fn assert_logged_out(state: &AppState) {
    assert_eq!(state.step, Step::LoggedOut);
    assert_eq!(state.token, None);
    assert_eq!(state.batch_id, None);
    assert!(state.batch_list.is_empty());
    assert!(state.selected_courses.is_empty());
    assert!(state.favorite_courses.is_empty());
    assert_eq!(state.enrollment_status.total_requests, 0);
    assert!(state.enrollment_status.course_statuses.is_empty());
    assert!(!state.enrollment_status.is_running);
    assert!(!state.should_continue);
}

#[test]
fn a_new_session_is_logged_out_and_empty() {
    assert_logged_out(&AppState::new());
}

#[test]
fn the_default_status_is_idle() {
    let status = EnrollmentStatus::default();
    assert_eq!(status.total_requests, 0);
    assert!(status.course_statuses.is_empty());
    assert!(!status.is_running);
}

#[test]
fn back_from_the_rounds_logs_out() {
    let mut state = at_courses();
    state.back();
    assert_eq!(state.step, Step::BatchSelection);
    state.back();
    assert_logged_out(&state);
    state.back();
    assert_logged_out(&state);
}

#[test]
fn back_from_the_courses_keeps_the_token() {
    let mut state = at_courses();
    state.enrollment_status.total_requests = 5;
    state.enrollment_status.course_statuses = vec!["x".to_string()];
    state.back();
    assert_eq!(state.step, Step::BatchSelection);
    assert_eq!(state.token, Some("tok".to_string()));
    assert_eq!(state.batch_list.len(), 1);
    assert_eq!(state.batch_id, None);
    assert!(state.selected_courses.is_empty());
    assert!(state.favorite_courses.is_empty());
    assert_eq!(state.enrollment_status.total_requests, 0);
    assert!(state.enrollment_status.course_statuses.is_empty());
    assert!(!state.enrollment_status.is_running);
    assert!(!state.should_continue);
}

#[test]
fn there_is_no_way_back_while_enrolling() {
    let mut state = at_courses();
    enroll_courses(vec![course("F")], true, &mut state).unwrap();
    assert_eq!(state.step, Step::Enrolling);
    state.back();
    assert_eq!(state.step, Step::Enrolling);
    assert_eq!(state.batch_id, Some("b1".to_string()));
    assert!(state.should_continue);
    assert_eq!(state.enrollment_status.course_statuses, vec!["[F]等待中"]);
}

#[test]
fn reset_for_login_clears_everything() {
    let mut state = at_courses();
    enroll_courses(vec![course("F")], true, &mut state).unwrap();
    state.reset_for_login();
    assert_logged_out(&state);
}

#[test]
fn reset_for_batch_selection_keeps_token_and_rounds() {
    let mut state = at_courses();
    state.reset_for_batch_selection();
    assert_eq!(state.step, Step::BatchSelection);
    assert_eq!(state.token, Some("tok".to_string()));
    assert_eq!(state.batch_list.len(), 1);
    assert_eq!(state.batch_id, None);
    assert!(state.selected_courses.is_empty());
    assert!(state.favorite_courses.is_empty());
    let mut fresh = AppState::new();
    fresh.reset_for_batch_selection();
    assert_logged_out(&fresh);
}

#[test]
fn a_step_forward_needs_a_success() {
    let mut state = AppState::new();
    let refused = LoginReply {
        code: Some(400),
        msg: Message::Other("null".to_string()),
        token: None,
        batch_list: Ok(Vec::new()),
    };
    assert!(login(refused, &mut state).is_err());
    assert_eq!(state.step, Step::LoggedOut);
    assert!(set_batch(0, Some(200), &mut state).is_err());
    assert_eq!(state.step, Step::LoggedOut);
    assert!(enroll_courses(vec![course("F")], true, &mut state).is_err());
    assert_eq!(state.step, Step::LoggedOut);
}

#[test]
fn credentials_prompt_for_the_first_empty_field() {
    let mut c = Credentials {
        username: String::new(),
        password: String::new(),
        captcha_code: String::new(),
        captcha_uuid: String::new(),
    };
    assert_eq!(c.prompt(), Some("请输入学号"));
    c.username = "2021".to_string();
    assert_eq!(c.prompt(), Some("请输入密码"));
    c.password = "pw".to_string();
    assert_eq!(c.prompt(), Some("请输入验证码"));
    c.captcha_code = "ab12".to_string();
    assert_eq!(c.prompt(), None);
}

#[test]
fn errors_carry_their_message() {
    assert_eq!(ErrorKind::ParseError("p".to_string()).message(), "p");
    assert_eq!(ErrorKind::CourseError("c".to_string()).message(), "c");
    assert_eq!(ErrorKind::CryptoError("bad key".to_string()).message(), "bad key");
    assert_eq!(ErrorKind::NetworkError("timeout".to_string()).message(), "timeout");
    assert_eq!(ErrorKind::AuthError("a".to_string()).message(), "a");
    let e = ErrorKind::NetworkError("n".to_string());
    match e.clone() {
        ErrorKind::NetworkError(m) => assert_eq!(m, "n"),
        other => panic!("unexpected: {:?}", other),
    }
}

#[test]
fn clones_of_the_data_are_equal_field_by_field() {
    let c = course("X");
    let d = c.clone();
    assert_eq!(d.course_name, "X");
    assert_eq!(d.teacher_name, "T");
    assert_eq!(d.class_id, "id");
    assert_eq!(d.teaching_class_type, Some("K".to_string()));
    assert_eq!(d.secret_val, None);
    let status = EnrollmentStatus {
        total_requests: 3,
        course_statuses: vec!["a".to_string(), "b".to_string()],
        is_running: true,
    };
    let copy = status.clone();
    assert_eq!(copy.total_requests, 3);
    assert_eq!(copy.course_statuses, vec!["a", "b"]);
    assert!(copy.is_running);
}

#[test]
fn captcha_and_login_responses_hold_what_they_are_given() {
    let captcha = CaptchaResponse { uuid: "u".to_string(), image_base64: "aGk=".to_string() };
    assert_eq!(captcha.uuid, "u");
    assert_eq!(captcha.image_base64, "aGk=");
    let login = LoginResponse { token: "t".to_string(), batch_list: Vec::new() };
    assert_eq!(login.token, "t");
    assert!(login.batch_list.is_empty());
}
