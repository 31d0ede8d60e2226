use funky_lesson::engine::{
    begin_attempt, course_index, enroll_courses, finish_attempt, stop_enrollment, Launch, Run,
    Worker, WorkerAction, ATTEMPT_DELAY_MS, ATTEMPT_TIMEOUT_MS, WORKER_COUNT,
};
use funky_lesson::error::ErrorKind;
use funky_lesson::model::CourseInfo;
use funky_lesson::outcome::AttemptResult;
use funky_lesson::state::{AppState, Step};

fn course(name: &str, class_id: &str) -> CourseInfo {
    CourseInfo {
        teacher_name: "T".to_string(),
        course_name: name.to_string(),
        class_id: class_id.to_string(),
        teaching_class_type: None,
        secret_val: None,
    }
}

fn three_courses() -> Vec<CourseInfo> {
    vec![course("A", "1"), course("B", "2"), course("C", "3")]
}

fn ready_state() -> AppState {
    let mut state = AppState::new();
    state.step = Step::CourseSelection;
    state.token = Some("tok".to_string());
    state.batch_id = Some("B1".to_string());
    state
}

fn started(courses: Vec<CourseInfo>, retry: bool) -> (AppState, Run, Vec<Worker>) {
    let mut state = ready_state();
    let launch: Launch = enroll_courses(courses, retry, &mut state).unwrap();
    (state, launch.run.unwrap(), launch.workers)
}

fn replied(code: i64, msg: &str) -> AttemptResult {
    AttemptResult::Replied { code: Some(code), msg: Some(msg.to_string()) }
}

#[test]
fn course_index_is_worker_plus_pass_mod_count() {
    assert_eq!(course_index(0, 0, 3), 0);
    assert_eq!(course_index(1, 0, 3), 1);
    assert_eq!(course_index(4, 0, 3), 1);
    assert_eq!(course_index(11, 0, 5), 1);
    assert_eq!(course_index(2, 5, 3), 1);
    assert_eq!(course_index(7, 9, 1), 0);
    assert_eq!(course_index(13, 2, 4), 3);
}

#[test]
fn course_index_takes_the_largest_numbers() {
    assert_eq!(course_index(usize::MAX, usize::MAX, usize::MAX), 0);
    assert_eq!(course_index(usize::MAX, 1, usize::MAX), 1);
    assert_eq!(course_index(usize::MAX, 0, 2), 1);
}

#[test]
fn advancing_a_worker_is_the_next_pass() {
    for count in 1..6usize {
        for id in 0..WORKER_COUNT {
            let mut worker = Worker { id, course_idx: course_index(id, 0, count) };
            for pass in 1..10usize {
                worker.advance(count);
                assert_eq!(worker.course_idx, course_index(id, pass, count));
                assert_eq!(worker.id, id);
            }
        }
    }
}

#[test]
fn a_start_makes_a_fresh_status_and_twelve_workers() {
    let mut state = ready_state();
    state.enrollment_status.total_requests = 77;
    let launch = enroll_courses(three_courses(), true, &mut state).unwrap();
    assert_eq!(WORKER_COUNT, 12);
    assert_eq!(launch.workers.len(), 12);
    for (i, worker) in launch.workers.iter().enumerate() {
        assert_eq!(worker.id, i);
        assert_eq!(worker.course_idx, i % 3);
    }
    let run = launch.run.unwrap();
    assert_eq!(run.courses.len(), 3);
    assert_eq!(run.courses[1].course_name, "B");
    assert!(run.try_if_capacity_full);
    assert_eq!(run.token, "tok");
    assert_eq!(run.batch_id, "B1");
    assert_eq!(state.step, Step::Enrolling);
    assert!(state.should_continue);
    assert!(state.enrollment_status.is_running);
    assert_eq!(state.enrollment_status.total_requests, 0);
    assert_eq!(state.enrollment_status.course_statuses, vec!["[A]等待中", "[B]等待中", "[C]等待中"]);
    assert_eq!(launch.status.course_statuses, state.enrollment_status.course_statuses);
    assert_eq!(launch.status.total_requests, 0);
    assert!(launch.status.is_running);
}

#[test]
fn a_start_with_fewer_courses_than_workers_shares_them_out() {
    let (_, _, workers) = started(vec![course("A", "1"), course("B", "2")], false);
    let indices: Vec<usize> = workers.iter().map(|w| w.course_idx).collect();
    assert_eq!(indices, vec![0, 1, 0, 1, 0, 1, 0, 1, 0, 1, 0, 1]);
}

#[test]
fn a_start_with_more_courses_than_workers() {
    let courses: Vec<CourseInfo> = (0..20).map(|i| course(&format!("c{}", i), "x")).collect();
    let (state, _, workers) = started(courses, false);
    assert_eq!(state.enrollment_status.course_statuses.len(), 20);
    let indices: Vec<usize> = workers.iter().map(|w| w.course_idx).collect();
    assert_eq!(indices, (0..12).collect::<Vec<usize>>());
}

#[test]
fn a_start_while_running_changes_nothing() {
    let (mut state, run, mut workers) = started(three_courses(), true);
    begin_attempt(&run, &workers[0], &mut state);
    finish_attempt(&run, &mut workers[0], &replied(500, "本轮次选课暂未开始"), &mut state);
    let before_total = state.enrollment_status.total_requests;
    let before_lines = state.enrollment_status.course_statuses.clone();
    let again = enroll_courses(vec![course("Z", "9")], false, &mut state).unwrap();
    assert!(again.run.is_none());
    assert!(again.workers.is_empty());
    assert_eq!(again.status.total_requests, before_total);
    assert_eq!(again.status.course_statuses, before_lines);
    assert!(again.status.is_running);
    assert_eq!(state.enrollment_status.total_requests, before_total);
    assert_eq!(state.enrollment_status.course_statuses, before_lines);
    assert_eq!(before_total, 1);
    assert_eq!(before_lines, vec!["[A]未开始", "[B]等待中", "[C]等待中"]);
    assert!(state.should_continue);
    assert_eq!(state.step, Step::Enrolling);
}

#[test]
fn a_start_without_courses_changes_nothing() {
    let mut state = ready_state();
    let launch = enroll_courses(Vec::new(), true, &mut state).unwrap();
    assert!(launch.run.is_none());
    assert!(launch.workers.is_empty());
    assert!(!state.enrollment_status.is_running);
    assert!(!state.should_continue);
    assert!(state.enrollment_status.course_statuses.is_empty());
    assert_eq!(state.step, Step::CourseSelection);
}

#[test]
fn a_start_without_a_token_is_refused() {
    let mut state = ready_state();
    state.token = None;
    match enroll_courses(three_courses(), true, &mut state) {
        Err(ErrorKind::ParseError(m)) => assert_eq!(m, "No token available"),
        other => panic!("unexpected: {:?}", other),
    }
    assert!(!state.enrollment_status.is_running);
    assert!(!state.should_continue);
}

#[test]
fn a_start_with_an_empty_token_is_refused() {
    let mut state = ready_state();
    state.token = Some(String::new());
    match enroll_courses(three_courses(), true, &mut state) {
        Err(ErrorKind::ParseError(m)) => assert_eq!(m, "No token available"),
        other => panic!("unexpected: {:?}", other),
    }
}

#[test]
fn a_start_without_a_round_is_refused() {
    let mut state = ready_state();
    state.batch_id = None;
    match enroll_courses(three_courses(), true, &mut state) {
        Err(ErrorKind::ParseError(m)) => assert_eq!(m, "No batch id selected"),
        other => panic!("unexpected: {:?}", other),
    }
    state.batch_id = Some(String::new());
    match enroll_courses(three_courses(), true, &mut state) {
        Err(ErrorKind::ParseError(m)) => assert_eq!(m, "No batch id selected"),
        other => panic!("unexpected: {:?}", other),
    }
    assert!(!state.enrollment_status.is_running);
}

#[test]
fn the_token_is_asked_for_before_the_round() {
    let mut state = AppState::new();
    match enroll_courses(three_courses(), true, &mut state) {
        Err(ErrorKind::ParseError(m)) => assert_eq!(m, "No token available"),
        other => panic!("unexpected: {:?}", other),
    }
}

#[test]
fn an_attempt_is_counted_once_and_gets_the_request_of_its_course() {
    let courses = vec![
        course("A", "1"),
        CourseInfo {
            teacher_name: "T".to_string(),
            course_name: "B".to_string(),
            class_id: "JX2".to_string(),
            teaching_class_type: Some("XGKC".to_string()),
            secret_val: Some("s3cr3t".to_string()),
        },
    ];
    let (mut state, run, workers) = started(courses, true);
    let first = begin_attempt(&run, &workers[0], &mut state).unwrap();
    assert_eq!(state.enrollment_status.total_requests, 1);
    assert_eq!(first.token, "tok");
    assert_eq!(first.batch_id, "B1");
    assert_eq!(first.class_id, "1");
    assert_eq!(first.class_type, "");
    assert_eq!(first.secret_val, "");
    assert_eq!(first.timeout_millis, 10000);
    assert_eq!(ATTEMPT_TIMEOUT_MS, 10000);
    let second = begin_attempt(&run, &workers[1], &mut state).unwrap();
    assert_eq!(state.enrollment_status.total_requests, 2);
    assert_eq!(second.class_id, "JX2");
    assert_eq!(second.class_type, "XGKC");
    assert_eq!(second.secret_val, "s3cr3t");
}

#[test]
fn a_report_leaves_the_count_alone() {
    let (mut state, run, mut workers) = started(three_courses(), true);
    begin_attempt(&run, &workers[0], &mut state);
    for result in [replied(500, "x"), AttemptResult::Failed, replied(200, "")] {
        finish_attempt(&run, &mut workers[0], &result, &mut state);
        assert_eq!(state.enrollment_status.total_requests, 1);
    }
}

#[test]
fn a_success_sets_the_stop_signal_and_no_worker_gets_another_request() {
    let (mut state, run, mut workers) = started(three_courses(), true);
    for worker in workers.iter() {
        assert!(begin_attempt(&run, worker, &mut state).is_some());
    }
    assert_eq!(state.enrollment_status.total_requests, 12);
    let action = finish_attempt(&run, &mut workers[1], &replied(200, ""), &mut state);
    assert_eq!(action, WorkerAction::Exit);
    assert_eq!(workers[1].course_idx, 1);
    assert!(!state.should_continue);
    assert_eq!(state.enrollment_status.course_statuses, vec!["[A]等待中", "[B]选课成功", "[C]等待中"]);
    for worker in workers.iter() {
        assert!(begin_attempt(&run, worker, &mut state).is_none());
    }
    assert_eq!(state.enrollment_status.total_requests, 12);
    let late = finish_attempt(&run, &mut workers[2], &replied(500, "本轮次选课暂未开始"), &mut state);
    assert_eq!(late, WorkerAction::Exit);
    assert_eq!(state.enrollment_status.course_statuses, vec!["[A]等待中", "[B]选课成功", "[C]未开始"]);
    assert!(!state.should_continue);
    assert_eq!(state.enrollment_status.total_requests, 12);
    assert!(state.enrollment_status.is_running);
}

#[test]
fn a_full_section_without_retry_ends_the_run() {
    let (mut state, run, mut workers) = started(three_courses(), false);
    begin_attempt(&run, &workers[2], &mut state);
    let action = finish_attempt(&run, &mut workers[2], &replied(500, "课容量已满"), &mut state);
    assert_eq!(action, WorkerAction::Exit);
    assert!(!state.should_continue);
    assert_eq!(state.enrollment_status.course_statuses, vec!["[A]等待中", "[B]等待中", "[C]已满"]);
}

#[test]
fn a_full_section_with_retry_waits_again() {
    let (mut state, run, mut workers) = started(three_courses(), true);
    begin_attempt(&run, &workers[2], &mut state);
    finish_attempt(&run, &mut workers[2], &replied(500, "参数校验不通过"), &mut state);
    assert_eq!(state.enrollment_status.course_statuses[2], "[C]参数错误");
    begin_attempt(&run, &workers[5], &mut state);
    let action = finish_attempt(&run, &mut workers[5], &replied(500, "课容量已满"), &mut state);
    assert_eq!(action, WorkerAction::Wait { millis: 200 });
    assert_eq!(ATTEMPT_DELAY_MS, 200);
    assert!(state.should_continue);
    assert_eq!(state.enrollment_status.course_statuses, vec!["[A]等待中", "[B]等待中", "[C]等待中"]);
    assert_eq!(workers[5].course_idx, 0);
}

#[test]
fn a_missing_login_and_an_existing_enrollment_end_the_run() {
    let (mut state, run, mut workers) = started(three_courses(), true);
    let action = finish_attempt(&run, &mut workers[0], &replied(401, ""), &mut state);
    assert_eq!(action, WorkerAction::Exit);
    assert!(!state.should_continue);
    assert_eq!(state.enrollment_status.course_statuses[0], "[A]未登录");
    let (mut state, run, mut workers) = started(three_courses(), true);
    let action = finish_attempt(&run, &mut workers[1], &replied(500, "该课程已在选课结果中"), &mut state);
    assert_eq!(action, WorkerAction::Exit);
    assert!(!state.should_continue);
    assert_eq!(state.enrollment_status.course_statuses[1], "[B]已选");
}

#[test]
fn outcomes_that_do_not_settle_the_run_move_the_worker_on() {
    let (mut state, run, mut workers) = started(three_courses(), true);
    let results = [
        (replied(500, "本轮次选课暂未开始"), "[C]未开始"),
        (replied(500, "参数校验不通过"), "[A]参数错误"),
        (AttemptResult::Failed, "[B]请求错误"),
        (replied(302, ""), "[C]失败"),
    ];
    let mut expected_idx = 2;
    for (result, line) in results.iter() {
        let at = workers[2].course_idx;
        assert_eq!(at, expected_idx);
        let action = finish_attempt(&run, &mut workers[2], result, &mut state);
        assert_eq!(action, WorkerAction::Wait { millis: 200 });
        assert_eq!(&state.enrollment_status.course_statuses[at], line);
        assert!(state.should_continue);
        expected_idx = (expected_idx + 1) % 3;
    }
}

#[test]
fn the_later_report_on_a_course_stands() {
    let (mut state, run, mut workers) = started(three_courses(), true);
    assert_eq!(workers[0].course_idx, workers[3].course_idx);
    finish_attempt(&run, &mut workers[0], &AttemptResult::Failed, &mut state);
    assert_eq!(state.enrollment_status.course_statuses[0], "[A]请求错误");
    finish_attempt(&run, &mut workers[3], &replied(500, "本轮次选课暂未开始"), &mut state);
    assert_eq!(state.enrollment_status.course_statuses[0], "[A]未开始");
}

#[test]
fn the_status_keeps_one_line_per_course_through_a_run() {
    for count in [1usize, 2, 5, 12, 13] {
        let courses: Vec<CourseInfo> = (0..count).map(|i| course(&format!("c{}", i), "x")).collect();
        let (mut state, run, mut workers) = started(courses, true);
        let mut last_total = 0;
        for round in 0..30usize {
            for w in 0..workers.len() {
                let began = begin_attempt(&run, &workers[w], &mut state).is_some();
                assert_eq!(state.enrollment_status.course_statuses.len(), count);
                let expected = if began { last_total + 1 } else { last_total };
                assert_eq!(state.enrollment_status.total_requests, expected);
                last_total = expected;
                if !began {
                    continue;
                }
                let result = match (round + w) % 4 {
                    0 => AttemptResult::Failed,
                    1 => replied(500, "课容量已满"),
                    2 => replied(500, "本轮次选课暂未开始"),
                    _ => if round == 20 { replied(200, "") } else { replied(500, "?") },
                };
                finish_attempt(&run, &mut workers[w], &result, &mut state);
                assert_eq!(state.enrollment_status.course_statuses.len(), count);
                assert_eq!(state.enrollment_status.total_requests, last_total);
                assert!(workers[w].course_idx < count);
            }
        }
        assert!(!state.should_continue);
        assert!(last_total < 30 * 12);
    }
}

#[test]
fn stopping_sets_the_signal_and_keeps_lines_and_count() {
    let (mut state, run, mut workers) = started(three_courses(), true);
    begin_attempt(&run, &workers[0], &mut state);
    stop_enrollment(&mut state);
    assert!(!state.should_continue);
    assert!(!state.enrollment_status.is_running);
    assert_eq!(state.step, Step::CourseSelection);
    assert_eq!(state.enrollment_status.total_requests, 1);
    assert_eq!(state.enrollment_status.course_statuses.len(), 3);
    let action = finish_attempt(&run, &mut workers[0], &replied(500, "本轮次选课暂未开始"), &mut state);
    assert_eq!(action, WorkerAction::Exit);
    assert_eq!(state.enrollment_status.course_statuses[0], "[A]未开始");
    assert!(begin_attempt(&run, &workers[1], &mut state).is_none());
    assert_eq!(state.enrollment_status.total_requests, 1);
}

#[test]
fn a_run_can_start_again_after_a_stop() {
    let (mut state, run, workers) = started(three_courses(), true);
    begin_attempt(&run, &workers[0], &mut state);
    stop_enrollment(&mut state);
    let again = enroll_courses(vec![course("Z", "9")], false, &mut state).unwrap();
    assert!(again.run.is_some());
    assert_eq!(again.workers.len(), 12);
    assert_eq!(state.enrollment_status.total_requests, 0);
    assert_eq!(state.enrollment_status.course_statuses, vec!["[Z]等待中"]);
    assert!(state.should_continue);
}

#[test]
fn stopping_when_nothing_runs_keeps_the_step() {
    let mut state = ready_state();
    stop_enrollment(&mut state);
    assert_eq!(state.step, Step::CourseSelection);
    assert!(!state.should_continue);
    assert!(!state.enrollment_status.is_running);
}

#[test]
fn capacity_full_in_plain_words_without_retry_ends_the_run() {
    let (mut state, run, mut workers) = started(three_courses(), false);
    assert!(begin_attempt(&run, &workers[1], &mut state).is_some());
    let action = finish_attempt(&run, &mut workers[1], &replied(500, "capacity full"), &mut state);
    assert_eq!(action, WorkerAction::Exit);
    assert!(!state.should_continue);
    assert_eq!(state.enrollment_status.course_statuses, vec!["[A]等待中", "[B]已满", "[C]等待中"]);
    assert_eq!(workers[1].course_idx, 1);
    assert!(begin_attempt(&run, &workers[1], &mut state).is_none());
    assert_eq!(state.enrollment_status.total_requests, 1);
}

#[test]
fn capacity_full_in_plain_words_with_retry_waits_again() {
    let (mut state, run, mut workers) = started(three_courses(), true);
    finish_attempt(&run, &mut workers[1], &AttemptResult::Failed, &mut state);
    assert_eq!(state.enrollment_status.course_statuses[1], "[B]请求错误");
    let action = finish_attempt(&run, &mut workers[4], &replied(500, "capacity full"), &mut state);
    assert_eq!(action, WorkerAction::Wait { millis: 200 });
    assert!(state.should_continue);
    assert_eq!(state.enrollment_status.course_statuses, vec!["[A]等待中", "[B]等待中", "[C]等待中"]);
    assert_eq!(workers[4].course_idx, 2);
}

#[test]
fn the_stop_signal_goes_by_the_outcome() {
    let settle_always = [replied(200, ""), replied(500, "already in result set"), replied(401, "")];
    let never = [
        replied(500, "round not yet started"),
        replied(500, "parameter validation failed"),
        replied(500, "anything else"),
        replied(302, ""),
        AttemptResult::Failed,
    ];
    for retry in [false, true] {
        for result in settle_always.iter() {
            let (mut state, run, mut workers) = started(three_courses(), retry);
            assert_eq!(finish_attempt(&run, &mut workers[0], result, &mut state), WorkerAction::Exit);
            assert!(!state.should_continue);
        }
        for result in never.iter() {
            let (mut state, run, mut workers) = started(three_courses(), retry);
            assert_eq!(
                finish_attempt(&run, &mut workers[0], result, &mut state),
                WorkerAction::Wait { millis: 200 }
            );
            assert!(state.should_continue);
        }
        let (mut state, run, mut workers) = started(three_courses(), retry);
        finish_attempt(&run, &mut workers[0], &replied(500, "capacity full"), &mut state);
        assert_eq!(state.should_continue, retry);
    }
}
