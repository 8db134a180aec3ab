//! The wire form of a compile result: the structured document a ready
//! outcome is serialized to before it leaves the service. The whole
//! serialization is specified character by character, escaping included.

use vstd::prelude::*;

use crate::types::{ApiCommandResult, CompileResponse, CompileResponseV, PollResult, SolFileV};

verus! {

/// The hexadecimal digit character for a value below sixteen.
pub open spec fn hex_char(d: int) -> char {
    if d < 10 {
        crate::handles::digit_char(d)
    } else if d == 10 {
        'a'
    } else if d == 11 {
        'b'
    } else if d == 12 {
        'c'
    } else if d == 13 {
        'd'
    } else if d == 14 {
        'e'
    } else {
        'f'
    }
}

/// How one character appears inside a JSON string literal.
pub open spec fn json_escaped_char(c: char) -> Seq<char> {
    if c == '"' {
        "\\\""@
    } else if c == '\\' {
        "\\\\"@
    } else if c == '\n' {
        "\\n"@
    } else if c == '\r' {
        "\\r"@
    } else if c == '\t' {
        "\\t"@
    } else if (c as u32) < 32 {
        "\\u00"@ + seq![hex_char((c as u32) as int / 16), hex_char((c as u32) as int % 16)]
    } else {
        seq![c]
    }
}

/// A text with every character escaped for a JSON string literal.
pub open spec fn json_escaped(s: Seq<char>) -> Seq<char>
    decreases s.len(),
{
    if s.len() == 0 {
        Seq::empty()
    } else {
        json_escaped(s.drop_last()) + json_escaped_char(s.last())
    }
}

/// A JSON string literal holding `s`.
pub open spec fn json_string_of(s: Seq<char>) -> Seq<char> {
    "\""@ + json_escaped(s) + "\""@
}

/// The JSON object for one artifact.
pub open spec fn json_artifact_of(f: SolFileV) -> Seq<char> {
    "{\"file_name\":"@ + json_string_of(f.file_name) + ",\"file_content\":"@ + json_string_of(
        f.file_content,
    ) + "}"@
}

/// The comma-separated artifact objects, in order.
pub open spec fn json_artifacts_of(fs: Seq<SolFileV>) -> Seq<char>
    decreases fs.len(),
{
    if fs.len() == 0 {
        Seq::empty()
    } else if fs.len() == 1 {
        json_artifact_of(fs[0])
    } else {
        json_artifacts_of(fs.drop_last()) + ","@ + json_artifact_of(fs.last())
    }
}

/// The whole response document: message, status string, artifact list.
pub open spec fn json_response_of(r: CompileResponseV) -> Seq<char> {
    "{\"message\":"@ + json_string_of(r.message) + ",\"status\":"@ + json_string_of(
        r.status.as_text(),
    ) + ",\"file_content\":["@ + json_artifacts_of(r.file_content) + "]}"@
}

fn hex_str(d: u8) -> (r: &'static str)
    requires
        d < 16,
    ensures
        r@ == seq![hex_char(d as int)],
{
    if d < 10 {
        crate::handles::digit_str(d)
    } else if d == 10 {
        proof {
            reveal_strlit("a");
            assert("a"@ =~= seq![hex_char(d as int)]);
        }
        "a"
    } else if d == 11 {
        proof {
            reveal_strlit("b");
            assert("b"@ =~= seq![hex_char(d as int)]);
        }
        "b"
    } else if d == 12 {
        proof {
            reveal_strlit("c");
            assert("c"@ =~= seq![hex_char(d as int)]);
        }
        "c"
    } else if d == 13 {
        proof {
            reveal_strlit("d");
            assert("d"@ =~= seq![hex_char(d as int)]);
        }
        "d"
    } else if d == 14 {
        proof {
            reveal_strlit("e");
            assert("e"@ =~= seq![hex_char(d as int)]);
        }
        "e"
    } else {
        proof {
            reveal_strlit("f");
            assert("f"@ =~= seq![hex_char(d as int)]);
        }
        "f"
    }
}

/// Appends `s` to `out` as a JSON string literal.
fn append_json_string(out: &mut String, s: &str)
    ensures
        final(out)@ == old(out)@ + json_string_of(s@),
{
    out.append("\"");
    let n = s.unicode_len();
    let mut i: usize = 0;
    while i < n
        invariant
            i <= n,
            n == s@.len(),
            out@ == old(out)@ + "\""@ + json_escaped(s@.take(i as int)),
        decreases n - i,
    {
        proof {
            assert(s@.take(i as int + 1).drop_last() =~= s@.take(i as int));
            assert(s@.take(i as int + 1).last() == s@[i as int]);
        }
        let c = s.get_char(i);
        if c == '"' {
            out.append("\\\"");
        } else if c == '\\' {
            out.append("\\\\");
        } else if c == '\n' {
            out.append("\\n");
        } else if c == '\r' {
            out.append("\\r");
        } else if c == '\t' {
            out.append("\\t");
        } else if (c as u32) < 32 {
            let u = c as u32;
            out.append("\\u00");
            out.append(hex_str((u / 16) as u8));
            out.append(hex_str((u % 16) as u8));
            proof {
                assert(json_escaped_char(c) =~= "\\u00"@ + seq![hex_char(u as int / 16)] + seq![
                    hex_char(u as int % 16),
                ]);
            }
        } else {
            let one = s.substring_char(i, i + 1);
            out.append(one);
            proof {
                assert(one@ =~= seq![c]);
            }
        }
        proof {
            assert(out@ =~= old(out)@ + "\""@ + json_escaped(s@.take(i as int + 1)));
        }
        i += 1;
    }
    out.append("\"");
    proof {
        assert(s@.take(n as int) =~= s@);
        assert(out@ =~= old(out)@ + json_string_of(s@));
    }
}

/// Serializes a ready compile response to its wire document.
pub fn response_to_json(resp: &CompileResponse) -> (r: String)
    ensures
        r@ == json_response_of(resp@),
{
    let mut out = String::from_str("{\"message\":");
    append_json_string(&mut out, resp.message.as_str());
    out.append(",\"status\":");
    let status = resp.status.status_string();
    append_json_string(&mut out, status.as_str());
    out.append(",\"file_content\":[");
    proof {
        assert(out@ =~= "{\"message\":"@ + json_string_of(resp@.message) + ",\"status\":"@
            + json_string_of(resp@.status.as_text()) + ",\"file_content\":["@);
    }
    let ghost head = out@;
    let mut i: usize = 0;
    while i < resp.file_content.len()
        invariant
            i <= resp.file_content.len(),
            out@ == head + json_artifacts_of(resp@.file_content.take(i as int)),
            resp@.file_content.len() == resp.file_content@.len(),
            forall|j: int|
                0 <= j < resp.file_content@.len() ==> resp@.file_content[j]
                    == resp.file_content@[j]@,
        decreases resp.file_content.len() - i,
    {
        proof {
            assert(resp@.file_content.take(i as int + 1).drop_last() =~= resp@.file_content.take(
                i as int,
            ));
            assert(resp@.file_content.take(i as int + 1).last() == resp@.file_content[i as int]);
        }
        if i > 0 {
            out.append(",");
        }
        out.append("{\"file_name\":");
        let file = &resp.file_content[i];
        append_json_string(&mut out, file.file_name.as_str());
        out.append(",\"file_content\":");
        append_json_string(&mut out, file.file_content.as_str());
        out.append("}");
        proof {
            assert(out@ =~= head + json_artifacts_of(resp@.file_content.take(i as int + 1)));
        }
        i += 1;
    }
    out.append("]}");
    proof {
        assert(resp@.file_content.take(resp@.file_content.len() as int) =~= resp@.file_content);
        assert(out@ =~= json_response_of(resp@));
    }
    out
}

/// The text a result query answers with: the serialized document once the
/// job is ready, a fixed notice in every other state.
pub fn compile_result_text(polled: &PollResult) -> (t: String)
    ensures
        polled@ matches crate::types::PollV::Ready(o) ==> (o matches
            crate::types::OutcomeV::Compile(resp) && t@ == json_response_of(resp)),
        !(polled@ is Ready) ==> t@ == "Result not available"@,
{
    match polled {
        PollResult::Ready(ApiCommandResult::Compile(resp)) => response_to_json(resp),
        _ => String::from_str("Result not available"),
    }
}

} // verus!
