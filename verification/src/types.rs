//! Data model of the service: commands, outcomes, poll results and the
//! compile response shape, each with a mathematical view for contracts.

use vstd::prelude::*;

verus! {

/// Terminal classification of one compile run, surfaced to clients as a
/// status string.
#[derive(Clone, Copy, PartialEq, Eq, Structural, Debug)]
pub enum CompileStatus {
    Success,
    CompilationFailed,
    FileNotFound,
    FileExtensionNotSupported,
    UnknownError,
}

impl CompileStatus {
    /// The wire form of each status value.
    pub open spec fn as_text(self) -> Seq<char> {
        match self {
            CompileStatus::Success => "Success"@,
            CompileStatus::CompilationFailed => "CompilationFailed"@,
            CompileStatus::FileNotFound => "FileNotFound"@,
            CompileStatus::FileExtensionNotSupported => "FileExtensionNotSupported"@,
            CompileStatus::UnknownError => "UnknownError"@,
        }
    }

    /// The status as the string a response carries.
    pub fn status_string(&self) -> (r: String)
        ensures
            r@ == self.as_text(),
    {
        match self {
            CompileStatus::Success => String::from_str("Success"),
            CompileStatus::CompilationFailed => String::from_str("CompilationFailed"),
            CompileStatus::FileNotFound => String::from_str("FileNotFound"),
            CompileStatus::FileExtensionNotSupported => String::from_str("FileExtensionNotSupported"),
            CompileStatus::UnknownError => String::from_str("UnknownError"),
        }
    }
}

/// Mathematical value of a `SolFile`.
pub ghost struct SolFileV {
    pub file_name: Seq<char>,
    pub file_content: Seq<char>,
}

/// One named unit of build output: the artifact file's name and its content.
pub struct SolFile {
    pub file_name: String,
    pub file_content: String,
}

impl View for SolFile {
    type V = SolFileV;

    open spec fn view(&self) -> SolFileV {
        SolFileV { file_name: self.file_name@, file_content: self.file_content@ }
    }
}

impl Clone for SolFile {
    fn clone(&self) -> (r: Self)
        ensures
            r@ == self@,
    {
        SolFile { file_name: self.file_name.clone(), file_content: self.file_content.clone() }
    }
}

/// Mathematical value of a `CompileResponse`.
pub ghost struct CompileResponseV {
    pub message: Seq<char>,
    pub status: CompileStatus,
    pub file_content: Seq<SolFileV>,
}

/// The structured result of one compile run: the build tool's diagnostic
/// text, a terminal status, and the artifacts in parse order.
pub struct CompileResponse {
    pub message: String,
    pub status: CompileStatus,
    pub file_content: Vec<SolFile>,
}

impl View for CompileResponse {
    type V = CompileResponseV;

    open spec fn view(&self) -> CompileResponseV {
        CompileResponseV {
            message: self.message@,
            status: self.status,
            file_content: self.file_content@.map_values(|f: SolFile| f@),
        }
    }
}

impl Clone for CompileResponse {
    fn clone(&self) -> (r: Self)
        ensures
            r@ == self@,
    {
        let mut files: Vec<SolFile> = Vec::new();
        let mut i: usize = 0;
        while i < self.file_content.len()
            invariant
                i <= self.file_content.len(),
                files@.len() == i,
                forall|j: int| 0 <= j < i ==> files@[j]@ == self.file_content@[j]@,
            decreases self.file_content.len() - i,
        {
            files.push(self.file_content[i].clone());
            i += 1;
        }
        let r = CompileResponse {
            message: self.message.clone(),
            status: self.status,
            file_content: files,
        };
        proof {
            assert(r@.file_content =~= self@.file_content);
        }
        r
    }
}

/// Mathematical value of an `ApiCommand`.
pub ghost enum CommandV {
    Compile(Seq<char>),
}

/// A job request: a closed set of operations, each carrying its input.
pub enum ApiCommand {
    /// Compile the source file at the given request path.
    Compile(String),
}

impl View for ApiCommand {
    type V = CommandV;

    open spec fn view(&self) -> CommandV {
        match self {
            ApiCommand::Compile(path) => CommandV::Compile(path@),
        }
    }
}

impl Clone for ApiCommand {
    fn clone(&self) -> (r: Self)
        ensures
            r@ == self@,
    {
        match self {
            ApiCommand::Compile(path) => ApiCommand::Compile(path.clone()),
        }
    }
}

/// Mathematical value of an `ApiCommandResult`.
pub ghost enum OutcomeV {
    Compile(CompileResponseV),
}

/// The terminal outcome of one job, mirroring `ApiCommand`'s variants.
pub enum ApiCommandResult {
    /// Outcome of a compile job.
    Compile(CompileResponse),
}

impl View for ApiCommandResult {
    type V = OutcomeV;

    open spec fn view(&self) -> OutcomeV {
        match self {
            ApiCommandResult::Compile(resp) => OutcomeV::Compile(resp@),
        }
    }
}

impl Clone for ApiCommandResult {
    fn clone(&self) -> (r: Self)
        ensures
            r@ == self@,
    {
        match self {
            ApiCommandResult::Compile(resp) => ApiCommandResult::Compile(resp.clone()),
        }
    }
}

/// Mathematical value of a `PollResult`.
pub ghost enum PollV {
    NotFound,
    Pending,
    Ready(OutcomeV),
}

/// What a poll of one handle observes: the handle was never issued, the job
/// is still running, or the job ended with an outcome.
pub enum PollResult {
    NotFound,
    Pending,
    Ready(ApiCommandResult),
}

impl View for PollResult {
    type V = PollV;

    open spec fn view(&self) -> PollV {
        match self {
            PollResult::NotFound => PollV::NotFound,
            PollResult::Pending => PollV::Pending,
            PollResult::Ready(o) => PollV::Ready(o@),
        }
    }
}

} // verus!
