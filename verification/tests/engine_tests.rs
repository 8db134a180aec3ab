use compile_engine::engine::Engine;
use compile_engine::handles::{handle_to_string, parse_handle};
use compile_engine::types::{
    ApiCommand, ApiCommandResult, CompileResponse, CompileStatus, PollResult,
};

fn compile_cmd(path: &str) -> ApiCommand {
    ApiCommand::Compile(String::from(path))
}

fn outcome_with_message(msg: &str) -> ApiCommandResult {
    ApiCommandResult::Compile(CompileResponse {
        message: String::from(msg),
        status: CompileStatus::Success,
        file_content: Vec::new(),
    })
}

#[test]
fn poll_never_issued_returns_not_found() {
    let e = Engine::new();
    assert!(matches!(e.poll(0), PollResult::NotFound));
    assert!(matches!(e.poll(42), PollResult::NotFound));
    assert!(matches!(e.poll(u64::MAX), PollResult::NotFound));
}

#[test]
fn poll_unrelated_handle_still_not_found_after_submit() {
    let mut e = Engine::new();
    let h = e.submit(&compile_cmd("a.sol"));
    assert!(matches!(e.poll(h), PollResult::Pending));
    assert!(matches!(e.poll(h + 1), PollResult::NotFound));
}

#[test]
fn submitted_job_polls_pending_until_published() {
    let mut e = Engine::new();
    let h = e.submit(&compile_cmd("a.sol"));
    assert!(matches!(e.poll(h), PollResult::Pending));
    assert!(matches!(e.poll(h), PollResult::Pending));
    e.publish(h, outcome_with_message("done"));
    assert!(matches!(e.poll(h), PollResult::Ready(_)));
}

#[test]
fn ready_outcome_is_stable_and_identical() {
    let mut e = Engine::new();
    let h = e.submit(&compile_cmd("a.sol"));
    e.publish(h, outcome_with_message("first outcome"));
    for _ in 0..3 {
        match e.poll(h) {
            PollResult::Ready(ApiCommandResult::Compile(resp)) => {
                assert_eq!(resp.message, "first outcome");
                assert_eq!(resp.status, CompileStatus::Success);
                assert!(resp.file_content.is_empty());
            }
            _ => panic!("published job must poll Ready"),
        }
    }
}

#[test]
fn ready_outcome_unchanged_by_later_jobs() {
    let mut e = Engine::new();
    let h1 = e.submit(&compile_cmd("a.sol"));
    e.publish(h1, outcome_with_message("outcome one"));
    let h2 = e.submit(&compile_cmd("b.sol"));
    e.publish(h2, outcome_with_message("outcome two"));
    match e.poll(h1) {
        PollResult::Ready(ApiCommandResult::Compile(resp)) => {
            assert_eq!(resp.message, "outcome one")
        }
        _ => panic!("published job must poll Ready"),
    }
}

#[test]
fn distinct_handles_and_own_outcomes() {
    let mut e = Engine::new();
    let inputs = ["a.sol", "b.sol", "c.sol"];
    let mut handles = Vec::new();
    for path in inputs.iter() {
        handles.push(e.submit(&compile_cmd(path)));
    }
    for i in 0..handles.len() {
        for j in 0..i {
            assert_ne!(handles[i], handles[j]);
        }
        assert!(matches!(e.poll(handles[i]), PollResult::Pending));
    }
    for (h, path) in handles.iter().zip(inputs.iter()) {
        e.publish(*h, outcome_with_message(path));
    }
    for (h, path) in handles.iter().zip(inputs.iter()) {
        match e.poll(*h) {
            PollResult::Ready(ApiCommandResult::Compile(resp)) => {
                assert_eq!(resp.message, *path)
            }
            _ => panic!("each job must end in its own outcome"),
        }
    }
}

#[test]
fn handle_text_round_trips() {
    for h in [0u64, 7, 10, 123, 90210, u64::MAX] {
        let text = handle_to_string(h);
        assert_eq!(parse_handle(&text), Some(h));
    }
    assert_eq!(handle_to_string(0), "0");
    assert_eq!(handle_to_string(1234567890), "1234567890");
    assert_eq!(handle_to_string(u64::MAX), "18446744073709551615");
}

#[test]
fn parse_handle_rejects_non_handles() {
    assert_eq!(parse_handle(""), None);
    assert_eq!(parse_handle("abc"), None);
    assert_eq!(parse_handle("12x"), None);
    assert_eq!(parse_handle("-5"), None);
    assert_eq!(parse_handle(" 12"), None);
    assert_eq!(parse_handle("18446744073709551616"), None);
    assert_eq!(parse_handle("99999999999999999999999"), None);
}

#[test]
fn parse_handle_accepts_digit_strings() {
    assert_eq!(parse_handle("0"), Some(0));
    assert_eq!(parse_handle("007"), Some(7));
    assert_eq!(parse_handle("18446744073709551615"), Some(u64::MAX));
}
