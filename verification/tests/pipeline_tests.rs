use compile_engine::engine::Engine;
use compile_engine::paths::{artifact_file_name, artifact_file_path, get_file_ext, get_file_path};
use compile_engine::pipeline::{
    exit_status, extension_not_supported_response, finish_compile, path_not_found_response,
    plan_compile, read_failure_response, validate_compile_request, ArtifactPlan,
};
use compile_engine::types::{
    ApiCommand, ApiCommandResult, CompileStatus, PollResult,
};

fn must_plan(request_path: &str, source: &str) -> ArtifactPlan {
    match plan_compile(request_path, source) {
        Ok(plan) => plan,
        Err(_) => panic!("source must parse"),
    }
}

#[test]
fn file_extension_values() {
    assert_eq!(get_file_ext("a.sol"), "sol");
    assert_eq!(get_file_ext("dir/sub/a.sol"), "sol");
    assert_eq!(get_file_ext("archive.tar.gz"), "gz");
    assert_eq!(get_file_ext("noext"), "");
    assert_eq!(get_file_ext("trailing."), "");
    assert_eq!(get_file_ext(""), "");
}

#[test]
fn path_resolution_values() {
    assert_eq!(get_file_path("c.sol"), "hardhat_env/contracts/c.sol");
    assert_eq!(artifact_file_name("A"), "A.json");
    assert_eq!(
        artifact_file_path("c.sol", "A"),
        "hardhat_env/artifacts/contracts/c.sol/A.json"
    );
}

#[test]
fn txt_extension_is_rejected() {
    match validate_compile_request("notes.txt") {
        Err(resp) => {
            assert_eq!(resp.status, CompileStatus::FileExtensionNotSupported);
            assert_eq!(resp.status.status_string(), "FileExtensionNotSupported");
            assert_eq!(resp.message, "File extension not supported");
            assert!(resp.file_content.is_empty());
        }
        Ok(_) => panic!("a .txt request must be rejected"),
    }
}

#[test]
fn sol_extension_is_accepted() {
    match validate_compile_request("c.sol") {
        Ok(path) => assert_eq!(path, "hardhat_env/contracts/c.sol"),
        Err(_) => panic!("a .sol request must be accepted"),
    }
}

#[test]
fn rejected_request_job_ends_with_rejection_outcome() {
    // The submit/poll flow of a .txt request: the rejection is the job's
    // whole outcome.
    let mut e = Engine::new();
    let h = e.submit(&ApiCommand::Compile(String::from("notes.txt")));
    let outcome = match validate_compile_request("notes.txt") {
        Err(resp) => resp,
        Ok(_) => panic!("a .txt request must be rejected"),
    };
    e.publish(h, ApiCommandResult::Compile(outcome));
    match e.poll(h) {
        PollResult::Ready(ApiCommandResult::Compile(resp)) => {
            assert_eq!(resp.status, CompileStatus::FileExtensionNotSupported);
            assert!(resp.file_content.is_empty());
        }
        _ => panic!("the rejection must be the published outcome"),
    }
}

#[test]
fn two_contracts_plan_in_parse_order() {
    let source = "contract A {}\ncontract B {}\n";
    let plan = must_plan("c.sol", source);
    assert_eq!(plan.names, vec!["A", "B"]);
    assert_eq!(
        plan.paths,
        vec![
            "hardhat_env/artifacts/contracts/c.sol/A.json",
            "hardhat_env/artifacts/contracts/c.sol/B.json",
        ]
    );
}

#[test]
fn non_contract_parts_are_skipped() {
    let source = "pragma solidity ^0.8.0;\nstruct S { uint x; }\ncontract A {}\nenum E { X }\ncontract B {}\n";
    let plan = must_plan("c.sol", source);
    assert_eq!(plan.names, vec!["A", "B"]);
}

#[test]
fn successful_build_assembles_artifacts_in_order() {
    let source = "contract A {}\ncontract B {}\n";
    let plan = must_plan("c.sol", source);
    let contents = vec![String::from("{\"abi\":\"A\"}"), String::from("{\"abi\":\"B\"}")];
    let resp = finish_compile(Some(0), String::new(), &plan.names, &contents);
    assert_eq!(resp.status, CompileStatus::Success);
    assert_eq!(resp.status.status_string(), "Success");
    assert_eq!(resp.message, "");
    assert_eq!(resp.file_content.len(), 2);
    assert_eq!(resp.file_content[0].file_name, "A.json");
    assert_eq!(resp.file_content[0].file_content, "{\"abi\":\"A\"}");
    assert_eq!(resp.file_content[1].file_name, "B.json");
    assert_eq!(resp.file_content[1].file_content, "{\"abi\":\"B\"}");
}

#[test]
fn failed_build_keeps_diagnostics_and_artifacts() {
    let source = "contract A {}\ncontract B {}\n";
    let plan = must_plan("c.sol", source);
    let contents = vec![String::from("{\"abi\":\"A\"}"), String::from("{\"abi\":\"B\"}")];
    let resp = finish_compile(
        Some(1),
        String::from("syntax error on line 4"),
        &plan.names,
        &contents,
    );
    assert_eq!(resp.status, CompileStatus::CompilationFailed);
    assert_eq!(resp.status.status_string(), "CompilationFailed");
    assert_eq!(resp.message, "syntax error on line 4");
    assert_eq!(resp.file_content.len(), 2);
    assert_eq!(resp.file_content[0].file_name, "A.json");
    assert_eq!(resp.file_content[1].file_name, "B.json");
}

#[test]
fn absent_exit_code_is_unknown_error() {
    assert_eq!(exit_status(None), CompileStatus::UnknownError);
    assert_eq!(exit_status(Some(0)), CompileStatus::Success);
    assert_eq!(exit_status(Some(2)), CompileStatus::CompilationFailed);
    assert_eq!(exit_status(Some(-1)), CompileStatus::CompilationFailed);
}

#[test]
fn missing_artifact_is_a_whole_job_failure() {
    let resp = read_failure_response("hardhat_env/artifacts/contracts/c.sol/A.json");
    assert_eq!(resp.status, CompileStatus::FileNotFound);
    assert_eq!(
        resp.message,
        "File not found: hardhat_env/artifacts/contracts/c.sol/A.json"
    );
    assert!(resp.file_content.is_empty());
}

#[test]
fn unparsable_source_is_a_job_failure() {
    let resp = match plan_compile("c.sol", "contract {{{{") {
        Err(resp) => resp,
        Ok(_) => panic!("an unparsable source must fail the job"),
    };
    assert_eq!(resp.status, CompileStatus::UnknownError);
    assert!(!resp.message.is_empty());
    assert!(resp.file_content.is_empty());
}

#[test]
fn status_strings_match_the_wire_form() {
    assert_eq!(CompileStatus::Success.status_string(), "Success");
    assert_eq!(
        CompileStatus::CompilationFailed.status_string(),
        "CompilationFailed"
    );
    assert_eq!(CompileStatus::FileNotFound.status_string(), "FileNotFound");
    assert_eq!(
        CompileStatus::FileExtensionNotSupported.status_string(),
        "FileExtensionNotSupported"
    );
    assert_eq!(CompileStatus::UnknownError.status_string(), "UnknownError");
}

#[test]
fn fixed_rejection_responses() {
    let ext = extension_not_supported_response();
    assert_eq!(ext.status, CompileStatus::FileExtensionNotSupported);
    assert_eq!(ext.message, "File extension not supported");
    assert!(ext.file_content.is_empty());
    let path = path_not_found_response();
    assert_eq!(path.status, CompileStatus::FileNotFound);
    assert_eq!(path.message, "File path not found");
    assert!(path.file_content.is_empty());
}
