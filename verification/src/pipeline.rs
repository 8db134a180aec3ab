//! The compile pipeline's decision logic: validate the request, discover
//! which definitions the parsed source declares, plan where their
//! artifacts must lie, and assemble the response from the build tool's
//! exit code, its captured diagnostics and the artifact contents.
//!
//! The build-tool invocation and every file read happen outside this
//! library; each of their results comes back in as a plain value, and the
//! functions here say exactly what response each such value leads to.

use vstd::prelude::*;

use crate::paths::{
    artifact_name_of, artifact_path_of, artifact_file_name, artifact_file_path,
    has_valid_extension, get_file_path, resolved_source_path, valid_extension,
};
use crate::types::{CompileResponse, CompileStatus, SolFile, SolFileV};

verus! {

/// What `solang_parser::parse` makes of a source text: in parse order, the
/// contract name of each top-level part (`None` where a part is not a
/// named contract definition); or, when the source does not parse, each
/// diagnostic's message.
pub uninterp spec fn solidity_parse(src: Seq<char>) -> Result<
    Seq<Option<Seq<char>>>,
    Seq<Seq<char>>,
>;

/// Relies on `solang_parser::parse`: the result is a function of the
/// source text alone. Each top-level part of the parse tree is reduced to
/// its contract name, in order; a failed parse yields its diagnostics'
/// messages, in order.
#[verifier::external_body]
fn parse_source_names(src: &str) -> (r: Result<Vec<Option<String>>, Vec<String>>)
    ensures
        r is Ok <==> solidity_parse(src@) is Ok,
        r matches Ok(parts) ==> parts.deep_view() == solidity_parse(src@)->Ok_0,
        r matches Err(msgs) ==> msgs.deep_view() == solidity_parse(src@)->Err_0,
{
    match solang_parser::parse(src, 0) {
        Ok((unit, _)) => Ok(
            unit.0.into_iter().map(|p| match p {
                solang_parser::pt::SourceUnitPart::ContractDefinition(d) => d.name.map(|i| i.name),
                _ => None,
            }).collect(),
        ),
        Err(diags) => Err(diags.into_iter().map(|d| d.message).collect()),
    }
}

/// The contract names among `parts`, in parse order.
pub open spec fn names_of(parts: Seq<Option<Seq<char>>>) -> Seq<Seq<char>>
    decreases parts.len(),
{
    if parts.len() == 0 {
        Seq::empty()
    } else {
        let rest = names_of(parts.drop_last());
        match parts.last() {
            Some(n) => rest.push(n),
            None => rest,
        }
    }
}

/// Keeps the named parts, in order: unnamed or non-contract parts are
/// skipped without error.
pub fn collect_contract_names(parts: &Vec<Option<String>>) -> (r: Vec<String>)
    ensures
        r.deep_view() == names_of(parts.deep_view()),
{
    let mut r: Vec<String> = Vec::new();
    let mut i: usize = 0;
    while i < parts.len()
        invariant
            i <= parts.len(),
            r.deep_view() == names_of(parts.deep_view().take(i as int)),
        decreases parts.len() - i,
    {
        proof {
            let dv = parts.deep_view();
            assert(dv.take(i as int + 1).drop_last() =~= dv.take(i as int));
            assert(dv.take(i as int + 1).last() == dv[i as int]);
        }
        match &parts[i] {
            Some(name) => {
                r.push(name.clone());
                proof {
                    assert(r.deep_view() =~= names_of(parts.deep_view().take(i as int + 1)));
                }
            },
            None => {
                proof {
                    assert(r.deep_view() =~= names_of(parts.deep_view().take(i as int + 1)));
                }
            },
        }
        i += 1;
    }
    proof {
        assert(parts.deep_view().take(parts.deep_view().len() as int) =~= parts.deep_view());
    }
    r
}

/// The diagnostics of a failed parse, one per line.
pub open spec fn joined_lines(msgs: Seq<Seq<char>>) -> Seq<char>
    decreases msgs.len(),
{
    if msgs.len() == 0 {
        Seq::empty()
    } else if msgs.len() == 1 {
        msgs[0]
    } else {
        joined_lines(msgs.drop_last()) + "\n"@ + msgs.last()
    }
}

/// Joins diagnostic messages, one per line.
pub fn join_lines(msgs: &Vec<String>) -> (r: String)
    ensures
        r@ == joined_lines(msgs.deep_view()),
{
    let mut r = String::new();
    let mut i: usize = 0;
    while i < msgs.len()
        invariant
            i <= msgs.len(),
            r@ == joined_lines(msgs.deep_view().take(i as int)),
        decreases msgs.len() - i,
    {
        proof {
            let dv = msgs.deep_view();
            assert(dv.take(i as int + 1).drop_last() =~= dv.take(i as int));
            assert(dv.take(i as int + 1).last() == dv[i as int]);
        }
        if i > 0 {
            r.append("\n");
        }
        r.append(msgs[i].as_str());
        proof {
            if i == 0 {
                assert(r@ =~= joined_lines(msgs.deep_view().take(1)));
            }
        }
        i += 1;
    }
    proof {
        assert(msgs.deep_view().take(msgs.deep_view().len() as int) =~= msgs.deep_view());
    }
    r
}

/// The response rejecting a request whose extension is not supported.
pub fn extension_not_supported_response() -> (r: CompileResponse)
    ensures
        r@.status == CompileStatus::FileExtensionNotSupported,
        r@.message == "File extension not supported"@,
        r@.file_content.len() == 0,
{
    let r = CompileResponse {
        message: String::from_str("File extension not supported"),
        status: CompileStatus::FileExtensionNotSupported,
        file_content: Vec::new(),
    };
    r
}

/// The response when the request path itself cannot be read as text.
pub fn path_not_found_response() -> (r: CompileResponse)
    ensures
        r@.status == CompileStatus::FileNotFound,
        r@.message == "File path not found"@,
        r@.file_content.len() == 0,
{
    let r = CompileResponse {
        message: String::from_str("File path not found"),
        status: CompileStatus::FileNotFound,
        file_content: Vec::new(),
    };
    r
}

/// The failure outcome when a file the pipeline must read is absent: the
/// whole job fails rather than returning a partial result.
pub fn read_failure_response(path: &str) -> (r: CompileResponse)
    ensures
        r@.status == CompileStatus::FileNotFound,
        r@.message == "File not found: "@ + path@,
        r@.file_content.len() == 0,
{
    let mut message = String::from_str("File not found: ");
    message.append(path);
    let r = CompileResponse {
        message,
        status: CompileStatus::FileNotFound,
        file_content: Vec::new(),
    };
    r
}

/// The failure outcome when the build tool could not be run at all.
pub fn execution_failure_response(detail: &str) -> (r: CompileResponse)
    ensures
        r@.status == CompileStatus::UnknownError,
        r@.message == detail@,
        r@.file_content.len() == 0,
{
    let r = CompileResponse {
        message: String::from_str(detail),
        status: CompileStatus::UnknownError,
        file_content: Vec::new(),
    };
    r
}

/// The failure outcome of a source text that does not parse.
pub fn parse_failure_response(msgs: &Vec<String>) -> (r: CompileResponse)
    ensures
        r@.status == CompileStatus::UnknownError,
        r@.message == joined_lines(msgs.deep_view()),
        r@.file_content.len() == 0,
{
    let r = CompileResponse {
        message: join_lines(msgs),
        status: CompileStatus::UnknownError,
        file_content: Vec::new(),
    };
    r
}

/// The status the build tool's exit code maps to: exit 0 is success, any
/// other reported code a failed compilation, and an absent code (the
/// process died without one) an unknown error.
pub open spec fn status_of_exit(code: Option<i32>) -> CompileStatus {
    match code {
        Some(c) => if c == 0 {
            CompileStatus::Success
        } else {
            CompileStatus::CompilationFailed
        },
        None => CompileStatus::UnknownError,
    }
}

/// Maps the build tool's exit code to the job's status.
pub fn exit_status(code: Option<i32>) -> (r: CompileStatus)
    ensures
        r == status_of_exit(code),
{
    match code {
        Some(c) => if c == 0 {
            CompileStatus::Success
        } else {
            CompileStatus::CompilationFailed
        },
        None => CompileStatus::UnknownError,
    }
}

/// Validates a compile request: accepted paths resolve to their source
/// location, any other extension is rejected before a job is started.
pub fn validate_compile_request(path: &str) -> (r: Result<String, CompileResponse>)
    ensures
        valid_extension(path@) ==> (r matches Ok(p) && p@ == resolved_source_path(path@)),
        !valid_extension(path@) ==> (r matches Err(resp) && resp@.status
            == CompileStatus::FileExtensionNotSupported && resp@.message
            == "File extension not supported"@ && resp@.file_content.len() == 0),
{
    if has_valid_extension(path) {
        Ok(get_file_path(path))
    } else {
        Err(extension_not_supported_response())
    }
}

/// The artifacts one compile job must collect: the discovered definition
/// names, and for each the location its artifact is expected at.
pub struct ArtifactPlan {
    pub names: Vec<String>,
    pub paths: Vec<String>,
}

/// Parses the source text and plans the artifact collection. `Ok` exactly
/// when the source parses; then the plan holds the contract names in parse
/// order and, for each, its expected artifact path. A failed parse is the
/// whole job's failure outcome.
pub fn plan_compile(request_path: &str, source_text: &str) -> (r: Result<
    ArtifactPlan,
    CompileResponse,
>)
    ensures
        r is Ok <==> solidity_parse(source_text@) is Ok,
        r matches Ok(plan) ==> {
            &&& plan.names.deep_view() == names_of(solidity_parse(source_text@)->Ok_0)
            &&& plan.paths@.len() == plan.names@.len()
            &&& forall|i: int|
                0 <= i < plan.paths@.len() ==> plan.paths@[i]@ == artifact_path_of(
                    request_path@,
                    plan.names@[i]@,
                )
        },
        r matches Err(resp) ==> {
            &&& resp@.status == CompileStatus::UnknownError
            &&& resp@.message == joined_lines(solidity_parse(source_text@)->Err_0)
            &&& resp@.file_content.len() == 0
        },
{
    match parse_source_names(source_text) {
        Ok(parts) => {
            let names = collect_contract_names(&parts);
            let mut paths: Vec<String> = Vec::new();
            let mut i: usize = 0;
            while i < names.len()
                invariant
                    i <= names.len(),
                    paths@.len() == i,
                    forall|j: int|
                        0 <= j < i ==> paths@[j]@ == artifact_path_of(
                            request_path@,
                            names@[j]@,
                        ),
                decreases names.len() - i,
            {
                paths.push(artifact_file_path(request_path, names[i].as_str()));
                i += 1;
            }
            Ok(ArtifactPlan { names, paths })
        },
        Err(msgs) => Err(parse_failure_response(&msgs)),
    }
}

/// Builds the artifact list: for each definition name, its artifact file
/// name and the content read for it, in parse order.
pub fn assemble_artifacts(names: &Vec<String>, contents: &Vec<String>) -> (r: Vec<SolFile>)
    requires
        names@.len() == contents@.len(),
    ensures
        r@.len() == names@.len(),
        forall|i: int|
            0 <= i < r@.len() ==> r@[i]@ == (SolFileV {
                file_name: artifact_name_of(names@[i]@),
                file_content: contents@[i]@,
            }),
{
    let mut r: Vec<SolFile> = Vec::new();
    let mut i: usize = 0;
    while i < names.len()
        invariant
            i <= names.len(),
            names@.len() == contents@.len(),
            r@.len() == i,
            forall|j: int|
                0 <= j < i ==> r@[j]@ == (SolFileV {
                    file_name: artifact_name_of(names@[j]@),
                    file_content: contents@[j]@,
                }),
        decreases names.len() - i,
    {
        let file = SolFile {
            file_name: artifact_file_name(names[i].as_str()),
            file_content: contents[i].clone(),
        };
        r.push(file);
        i += 1;
    }
    r
}

/// Assembles the job's response once the build tool has run and every
/// artifact content has been read: the captured diagnostics become the
/// message whatever the exit code was, the exit code alone decides the
/// status, and the artifacts stand in parse order.
pub fn finish_compile(
    exit_code: Option<i32>,
    stderr: String,
    names: &Vec<String>,
    contents: &Vec<String>,
) -> (r: CompileResponse)
    requires
        names@.len() == contents@.len(),
    ensures
        r@.status == status_of_exit(exit_code),
        r@.message == stderr@,
        r@.file_content.len() == names@.len(),
        forall|i: int|
            0 <= i < names@.len() ==> r@.file_content[i] == (SolFileV {
                file_name: artifact_name_of(names@[i]@),
                file_content: contents@[i]@,
            }),
{
    let r = CompileResponse {
        message: stderr,
        status: exit_status(exit_code),
        file_content: assemble_artifacts(names, contents),
    };
    r
}

} // verus!
