//! Per-message orchestration decisions.
//!
//! A transport driver feeds each inbound message through these functions:
//! the authorization check, the decision taken on the model's reply
//! (error notice, nothing to execute, or a plan plus a command list), and
//! the pieces of the model request that are computed rather than fetched.
//! The sends and awaits around them are transport work and stay outside the
//! crate.

use vstd::prelude::*;
use vstd::string::*;
use crate::config::LlmConfig;
use crate::executor::{command_pairs, TaskCommand};
use crate::extract::{extract, extracted_commands};
use crate::report::{format_plan, plan_spec};

verus! {

/// Whether a chat may trigger execution: an empty allow-list admits every
/// chat, otherwise only the listed identifiers.
pub open spec fn chat_allowed_spec(allowed: Seq<i64>, chat_id: i64) -> bool {
    allowed.len() == 0 || allowed.contains(chat_id)
}

/// Decides the authorization check for one inbound message.
pub fn chat_allowed(allowed: &Vec<i64>, chat_id: i64) -> (r: bool)
    ensures
        r == chat_allowed_spec(allowed@, chat_id),
{
    if allowed.len() == 0 {
        return true;
    }
    let mut i: usize = 0;
    while i < allowed.len()
        invariant
            i <= allowed@.len(),
            forall|j: int| 0 <= j < i ==> allowed@[j] != chat_id,
        decreases allowed@.len() - i,
    {
        if allowed[i] == chat_id {
            return true;
        }
        i = i + 1;
    }
    proof {
        assert(!allowed@.contains(chat_id));
    }
    false
}

/// The notice sent when the model call fails.
pub open spec fn gateway_error_notice_spec(e: Seq<char>) -> Seq<char> {
    "Model call failed: "@ + e
}

/// Formats the notice for a failed model call.
pub fn gateway_error_notice(e: &str) -> (r: String)
    ensures
        r@ == gateway_error_notice_spec(e@),
{
    let mut msg = String::from_str("Model call failed: ");
    msg.append(e);
    msg
}

/// The notice sent when the model's reply holds no commands.
pub open spec fn no_commands_notice() -> Seq<char> {
    "This message needs no commands to be executed."@
}

/// What the handler does once the model has replied (or failed).
pub enum ModelDecision {
    /// Send this notice and stop; nothing is executed.
    Notice(String),
    /// Announce `plan` and execute `commands`.
    Execute { plan: String, commands: Vec<TaskCommand> },
}

/// Decides the handler's next step from the model gateway's reply: a
/// gateway error becomes an error notice, a reply with no extractable
/// commands becomes a "nothing to execute" notice, and any other reply
/// becomes the extracted command list with its plan announcement.
pub fn decide_after_model(reply: &Result<String, String>) -> (d: ModelDecision)
    ensures
        match reply {
            Result::Err(e) => (d matches ModelDecision::Notice(m)
                && m@ == gateway_error_notice_spec(e@)),
            Result::Ok(text) => {
                if extracted_commands(text@).len() == 0 {
                    d matches ModelDecision::Notice(m) && m@ == no_commands_notice()
                } else {
                    d matches ModelDecision::Execute { plan, commands }
                        && command_pairs(commands@) == extracted_commands(text@)
                        && plan@ == plan_spec(extracted_commands(text@))
                }
            },
        },
{
    match reply {
        Result::Err(e) => ModelDecision::Notice(gateway_error_notice(e.as_str())),
        Result::Ok(text) => {
            let commands = extract(text.as_str());
            if commands.len() == 0 {
                ModelDecision::Notice(String::from_str(
                    "This message needs no commands to be executed.",
                ))
            } else {
                let plan = format_plan(&commands);
                ModelDecision::Execute { plan, commands }
            }
        },
    }
}

/// The built-in system prompt used when the configuration provides none.
pub fn default_system_prompt() -> (r: &'static str)
    ensures
        r@ == default_system_prompt_spec(),
{
    "You are an automated task execution agent. A user sends you a message, and you analyze the intent and return the list of shell commands to execute.\n\nReturn a JSON array whose elements each contain:\n- \"command\": the shell command to execute (a string)\n- \"description\": a short explanation of what the command does (a string)\n\nReturn only the JSON array, with no other text. If the message needs no commands, return an empty array [].\n\nExample:\n[\n  {\"command\": \"df -h\", \"description\": \"check disk space\"},\n  {\"command\": \"free -m\", \"description\": \"check memory use\"}\n]"
}

/// The view of the built-in system prompt.
pub open spec fn default_system_prompt_spec() -> Seq<char> {
    "You are an automated task execution agent. A user sends you a message, and you analyze the intent and return the list of shell commands to execute.\n\nReturn a JSON array whose elements each contain:\n- \"command\": the shell command to execute (a string)\n- \"description\": a short explanation of what the command does (a string)\n\nReturn only the JSON array, with no other text. If the message needs no commands, return an empty array [].\n\nExample:\n[\n  {\"command\": \"df -h\", \"description\": \"check disk space\"},\n  {\"command\": \"free -m\", \"description\": \"check memory use\"}\n]"@
}

/// The system prompt sent with a model request: the configured override
/// when present, the built-in default otherwise.
pub fn effective_system_prompt<'a>(config: &'a LlmConfig) -> (r: &'a str)
    ensures
        match config.system_prompt {
            Some(p) => r@ == p@,
            None => r@ == default_system_prompt_spec(),
        },
{
    match &config.system_prompt {
        Some(p) => p.as_str(),
        None => default_system_prompt(),
    }
}

/// `s` without its trailing `/` characters.
pub open spec fn without_trailing_slashes(s: Seq<char>) -> Seq<char>
    decreases s.len(),
{
    if s.len() > 0 && s[s.len() - 1] == '/' {
        without_trailing_slashes(s.drop_last())
    } else {
        s
    }
}

/// The completions endpoint reached from a configured base URL.
pub open spec fn completions_url_spec(base: Seq<char>) -> Seq<char> {
    without_trailing_slashes(base) + "/chat/completions"@
}

/// Builds the completions endpoint URL from the configured base URL,
/// tolerating trailing slashes.
pub fn completions_url(base: &str) -> (r: String)
    ensures
        r@ == completions_url_spec(base@),
{
    let n = base.unicode_len();
    proof {
        assert(base@.subrange(0, n as int) =~= base@);
    }
    let mut b: usize = n;
    while b > 0 && base.get_char(b - 1) == '/'
        invariant
            b <= n,
            n == base@.len(),
            without_trailing_slashes(base@) == without_trailing_slashes(base@.subrange(0, b as int)),
        decreases b,
    {
        proof {
            assert(base@.subrange(0, b as int).drop_last() =~= base@.subrange(0, b as int - 1));
        }
        b = b - 1;
    }
    proof {
        assert(without_trailing_slashes(base@.subrange(0, b as int))
            == base@.subrange(0, b as int));
    }
    let mut url = base.substring_char(0, b).to_owned();
    url.append("/chat/completions");
    url
}

} // verus!
