//! Extraction of a validated command list from unstructured model text.
//!
//! Model replies are usually markdown-wrapped JSON, so the candidate text to
//! parse is chosen by a three-tier fallback that must be kept exactly as
//! stated: the first fenced code block if one is closed, else the span from
//! the first `[` to the last `]`, else the whole text trimmed. The candidate
//! is then parsed as a JSON array of `{"command", "description"}` objects;
//! any parse failure yields an empty list and is never an error.

use vstd::prelude::*;
use vstd::string::*;
use crate::executor::TaskCommand;
use crate::executor::command_pairs;
use crate::text::{
    find_char, find_fence, first_char_from, first_fence_from, last_char_before, rfind_char,
    trim_spec, trim_str,
};

verus! {

/// What the JSON parser yields on a candidate text: `Some` of the
/// (command, description) pairs when the text is a JSON array of objects
/// with a required string member "command" and an optional string member
/// "description" (defaulting to empty), `None` on any other text.
pub uninterp spec fn json_command_array(s: Seq<char>) -> Option<Seq<(Seq<char>, Seq<char>)>>;

/// The content of the first closed fenced code block: the text after the
/// first triple-backtick marker, skipped to past the first newline after it
/// (or not at all when no newline follows), up to the next marker, trimmed.
/// `None` when no marker is found or the block is never closed.
pub open spec fn fenced_candidate(text: Seq<char>) -> Option<Seq<char>> {
    match first_fence_from(text, 0) {
        None => None,
        Some(start) => {
            let after = text.subrange(start + 3, text.len() as int);
            let content_start = match first_char_from(after, 0, '\n') {
                Some(i) => i + 1,
                None => 0,
            };
            let content = after.subrange(content_start, after.len() as int);
            match first_fence_from(content, 0) {
                Some(end) => Some(trim_spec(content.subrange(0, end))),
                None => None,
            }
        },
    }
}

/// The span from the first `[` through the last `]`, inclusive; `None` when
/// either bracket is missing or the last `]` precedes the first `[`.
pub open spec fn bracket_candidate(text: Seq<char>) -> Option<Seq<char>> {
    match first_char_from(text, 0, '[') {
        None => None,
        Some(a) => match last_char_before(text, text.len() as int, ']') {
            None => None,
            Some(b) => if a <= b {
                Some(text.subrange(a, b + 1))
            } else {
                None
            },
        },
    }
}

/// The candidate text handed to the JSON parser: the three-tier fallback.
pub open spec fn candidate_of(text: Seq<char>) -> Seq<char> {
    match fenced_candidate(text) {
        Some(c) => c,
        None => match bracket_candidate(text) {
            Some(c) => c,
            None => trim_spec(text),
        },
    }
}

/// The command list extracted from raw model text: the parsed pairs of the
/// candidate, or the empty sequence when the candidate does not parse.
pub open spec fn extracted_commands(text: Seq<char>) -> Seq<(Seq<char>, Seq<char>)> {
    match json_command_array(candidate_of(text)) {
        Some(cmds) => cmds,
        None => Seq::empty(),
    }
}

/// Raw text with a closed fenced block is extracted from that block alone,
/// regardless of any surrounding prose: the candidate handed to the parser
/// is the fenced content, and the brackets elsewhere in the text play no part.
pub proof fn lemma_extract_prefers_fenced_block(text: Seq<char>, fenced: Seq<char>)
    requires
        fenced_candidate(text) == Some(fenced),
    ensures
        candidate_of(text) == fenced,
        extracted_commands(text) == match json_command_array(fenced) {
            Some(cmds) => cmds,
            None => Seq::<(Seq<char>, Seq<char>)>::empty(),
        },
{
}

/// Raw text with no fenced block but with a bracketed span is extracted
/// from the span between the first `[` and the last `]`, inclusive.
pub proof fn lemma_extract_uses_bracket_span(text: Seq<char>, span: Seq<char>)
    requires
        fenced_candidate(text) is None,
        bracket_candidate(text) == Some(span),
    ensures
        candidate_of(text) == span,
        extracted_commands(text) == match json_command_array(span) {
            Some(cmds) => cmds,
            None => Seq::<(Seq<char>, Seq<char>)>::empty(),
        },
{
}

/// Raw text with neither a closed fenced block nor a bracketed span is
/// parsed whole, trimmed; and when the candidate parses as no JSON command
/// array at all, the extracted list is empty rather than an error.
pub proof fn lemma_extract_falls_back_to_whole_text(text: Seq<char>)
    requires
        fenced_candidate(text) is None,
        bracket_candidate(text) is None,
    ensures
        candidate_of(text) == trim_spec(text),
        json_command_array(trim_spec(text)) is None ==> extracted_commands(text)
            == Seq::<(Seq<char>, Seq<char>)>::empty(),
{
}

/// Relies on `serde_json::from_str` together with `serde_json::Map::get`
/// and the `serde_json::Value` variants: parses `s` as a JSON array of
/// objects, reading the required string member "command" and the optional
/// string member "description" of each.
#[verifier::external_body]
fn parse_command_array(s: &str) -> (r: Option<Vec<TaskCommand>>)
    ensures
        match r {
            Some(cmds) => json_command_array(s@) == Some(command_pairs(cmds@)),
            None => json_command_array(s@) is None,
        },
{
    let elems: Vec<serde_json::Map<String, serde_json::Value>> =
        match serde_json::from_str(s) { Ok(v) => v, Err(_) => return None };
    let mut out: Vec<TaskCommand> = Vec::new();
    for m in elems {
        let command = match m.get("command") {
            Some(serde_json::Value::String(c)) => c.clone(), _ => return None };
        let description = match m.get("description") {
            Some(serde_json::Value::String(d)) => d.clone(), None => String::new(), Some(_) => return None };
        out.push(TaskCommand { command, description });
    }
    Some(out)
}

/// Chooses the candidate text to parse as a command list.
pub fn extract_json_array(text: &str) -> (r: String)
    ensures
        r@ == candidate_of(text@),
{
    let n = text.unicode_len();
    if let Some(start) = find_fence(text, 0) {
        let after = text.substring_char(start + 3, n);
        let content_start = match find_char(after, 0, '\n') {
            Some(i) => i + 1,
            None => 0,
        };
        let content = after.substring_char(content_start, after.unicode_len());
        if let Some(end) = find_fence(content, 0) {
            let body = content.substring_char(0, end);
            return trim_str(body).to_owned();
        }
    }
    if let Some(a) = find_char(text, 0, '[') {
        if let Some(b) = rfind_char(text, ']') {
            if a <= b {
                return text.substring_char(a, b + 1).to_owned();
            }
        }
    }
    trim_str(text).to_owned()
}

/// Turns raw model text into a validated command list. Never fails: text
/// with no parsable JSON array yields the empty list.
pub fn extract(raw: &str) -> (r: Vec<TaskCommand>)
    ensures
        command_pairs(r@) == extracted_commands(raw@),
        r@.len() == extracted_commands(raw@).len(),
        json_command_array(candidate_of(raw@)) is None ==> r@.len() == 0,
{
    let candidate = extract_json_array(raw);
    match parse_command_array(candidate.as_str()) {
        Some(cmds) => cmds,
        None => {
            proof {
                assert(command_pairs(Seq::<TaskCommand>::empty())
                    =~= Seq::<(Seq<char>, Seq<char>)>::empty());
            }
            Vec::new()
        },
    }
}

} // verus!
