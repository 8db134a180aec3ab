//! Request-path logic of the compile pipeline: the file extension decides
//! whether a request is accepted, and accepted paths are resolved to a
//! source location under the source root and to artifact locations under
//! the artifacts root.

use vstd::prelude::*;

verus! {

/// Index of the last `.` in `s`, or a negative value if there is none.
pub open spec fn last_dot(s: Seq<char>) -> int
    decreases s.len(),
{
    if s.len() == 0 {
        -1
    } else if s.last() == '.' {
        s.len() - 1
    } else {
        last_dot(s.drop_last())
    }
}

/// The extension of path `s`: what follows the last `.`, empty if none.
pub open spec fn ext_of(s: Seq<char>) -> Seq<char> {
    if last_dot(s) >= 0 {
        s.subrange(last_dot(s) + 1, s.len() as int)
    } else {
        Seq::empty()
    }
}

/// `last_dot` points at a `.`, and no `.` follows it.
pub proof fn lemma_last_dot_props(s: Seq<char>)
    ensures
        -1 <= last_dot(s) < s.len(),
        last_dot(s) >= 0 ==> s[last_dot(s)] == '.',
        forall|j: int| last_dot(s) < j < s.len() ==> s[j] != '.',
    decreases s.len(),
{
    if s.len() > 0 && s.last() != '.' {
        lemma_last_dot_props(s.drop_last());
        assert forall|j: int| last_dot(s) < j < s.len() implies s[j] != '.' by {
            if j < s.len() - 1 {
                assert(s.drop_last()[j] == s[j]);
            }
        }
    }
}

/// A `.` with no later `.` is the last dot.
pub proof fn lemma_last_dot_unique(s: Seq<char>, i: int)
    requires
        0 <= i < s.len(),
        s[i] == '.',
        forall|j: int| i < j < s.len() ==> s[j] != '.',
    ensures
        last_dot(s) == i,
    decreases s.len(),
{
    if i < s.len() - 1 {
        assert(s.last() != '.');
        assert(s.drop_last()[i] == s[i]);
        assert forall|j: int| i < j < s.drop_last().len() implies s.drop_last()[j] != '.' by {
            assert(s.drop_last()[j] == s[j]);
        }
        lemma_last_dot_unique(s.drop_last(), i);
    }
}

/// The extension of a request path, as the original service derives it.
pub fn get_file_ext(path: &str) -> (r: String)
    ensures
        r@ == ext_of(path@),
{
    let n = path.unicode_len();
    let mut i: usize = n;
    while i > 0
        invariant
            i <= n,
            n == path@.len(),
            forall|j: int| i <= j < n ==> path@[j] != '.',
        decreases i,
    {
        i -= 1;
        let c = path.get_char(i);
        if c == '.' {
            proof {
                lemma_last_dot_unique(path@, i as int);
            }
            let sub = path.substring_char(i + 1, n);
            return String::from_str(sub);
        }
    }
    proof {
        lemma_last_dot_props(path@);
        if last_dot(path@) >= 0 {
            assert(path@[last_dot(path@)] == '.');
        }
    }
    String::new()
}

/// The extension that compile requests must carry.
pub open spec fn sol_extension() -> Seq<char> {
    "sol"@
}

/// Whether the request path names a supported source file.
pub open spec fn valid_extension(req: Seq<char>) -> bool {
    ext_of(req) == sol_extension()
}

/// Decides `valid_extension`, as the pipeline's first step does.
pub fn has_valid_extension(path: &str) -> (r: bool)
    ensures
        r == valid_extension(path@),
{
    let ext = get_file_ext(path);
    ext == String::from_str("sol")
}

/// Root directory of the build project the tool is invoked in.
pub open spec fn project_root() -> Seq<char> {
    "hardhat_env"@
}

/// The project root as a path string: the build tool's working directory.
pub fn project_root_path() -> (r: &'static str)
    ensures
        r@ == project_root(),
{
    "hardhat_env"
}

/// Root directory holding the source files the service compiles.
pub open spec fn sol_root() -> Seq<char> {
    "hardhat_env/contracts"@
}

/// Root directory where the build tool writes artifacts.
pub open spec fn artifacts_root() -> Seq<char> {
    "hardhat_env/artifacts/contracts"@
}

/// The source root as a path string.
pub fn sol_root_path() -> (r: &'static str)
    ensures
        r@ == sol_root(),
{
    "hardhat_env/contracts"
}

/// The artifacts root as a path string.
pub fn artifacts_root_path() -> (r: &'static str)
    ensures
        r@ == artifacts_root(),
{
    "hardhat_env/artifacts/contracts"
}

/// Where the source file of request `req` lives.
pub open spec fn resolved_source_path(req: Seq<char>) -> Seq<char> {
    sol_root() + "/"@ + req
}

/// Resolves a request path to its source-file location.
pub fn get_file_path(path: &str) -> (r: String)
    ensures
        r@ == resolved_source_path(path@),
{
    let mut r = String::from_str(sol_root_path());
    r.append("/");
    r.append(path);
    r
}

/// The artifact file name recorded for definition `name`.
pub open spec fn artifact_name_of(name: Seq<char>) -> Seq<char> {
    name + ".json"@
}

/// Where the artifact for definition `name` of request `req` is expected.
pub open spec fn artifact_path_of(req: Seq<char>, name: Seq<char>) -> Seq<char> {
    artifacts_root() + "/"@ + req + "/"@ + name + ".json"@
}

/// The artifact file name for one definition.
pub fn artifact_file_name(name: &str) -> (r: String)
    ensures
        r@ == artifact_name_of(name@),
{
    let mut r = String::from_str(name);
    r.append(".json");
    r
}

/// The expected artifact location for one definition of one request.
pub fn artifact_file_path(req: &str, name: &str) -> (r: String)
    ensures
        r@ == artifact_path_of(req@, name@),
{
    let mut r = String::from_str(artifacts_root_path());
    r.append("/");
    r.append(req);
    r.append("/");
    r.append(name);
    r.append(".json");
    r
}

} // verus!
