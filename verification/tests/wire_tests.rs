use compile_engine::types::{
    ApiCommandResult, CompileResponse, CompileStatus, PollResult, SolFile,
};
use compile_engine::wire::{compile_result_text, response_to_json};

fn response(
    message: &str,
    status: CompileStatus,
    files: Vec<(&str, &str)>,
) -> CompileResponse {
    CompileResponse {
        message: String::from(message),
        status,
        file_content: files
            .into_iter()
            .map(|(name, content)| SolFile {
                file_name: String::from(name),
                file_content: String::from(content),
            })
            .collect(),
    }
}

#[test]
fn empty_response_document() {
    let resp = response("", CompileStatus::Success, vec![]);
    assert_eq!(
        response_to_json(&resp),
        "{\"message\":\"\",\"status\":\"Success\",\"file_content\":[]}"
    );
}

#[test]
fn document_with_artifacts_in_order() {
    let resp = response(
        "",
        CompileStatus::Success,
        vec![("A.json", "{\"abi\":[]}"), ("B.json", "data")],
    );
    assert_eq!(
        response_to_json(&resp),
        "{\"message\":\"\",\"status\":\"Success\",\"file_content\":[{\"file_name\":\"A.json\",\"file_content\":\"{\\\"abi\\\":[]}\"},{\"file_name\":\"B.json\",\"file_content\":\"data\"}]}"
    );
}

#[test]
fn message_characters_are_escaped() {
    let resp = response(
        "a \"quote\", a \\ backslash,\na newline,\ta tab, a \u{1b} control",
        CompileStatus::CompilationFailed,
        vec![],
    );
    assert_eq!(
        response_to_json(&resp),
        "{\"message\":\"a \\\"quote\\\", a \\\\ backslash,\\na newline,\\ta tab, a \\u001b control\",\"status\":\"CompilationFailed\",\"file_content\":[]}"
    );
}

#[test]
fn result_text_only_for_ready_jobs() {
    assert_eq!(compile_result_text(&PollResult::NotFound), "Result not available");
    assert_eq!(compile_result_text(&PollResult::Pending), "Result not available");
    let resp = response("m", CompileStatus::UnknownError, vec![]);
    assert_eq!(
        compile_result_text(&PollResult::Ready(ApiCommandResult::Compile(resp))),
        "{\"message\":\"m\",\"status\":\"UnknownError\",\"file_content\":[]}"
    );
}
