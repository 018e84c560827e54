//! Process-wide configuration, loaded once at startup and never mutated.
//!
//! Reading the configuration file is I/O and lives outside the crate; these
//! types carry the values the pipeline's decisions depend on.

use vstd::prelude::*;

verus! {

/// Settings for the chat transport.
pub struct TelegramConfig {
    /// The transport authentication token.
    pub bot_token: String,
    /// Chat identifiers allowed to trigger execution; empty means all.
    pub allowed_chat_ids: Vec<i64>,
}

/// Settings for the language-model endpoint.
pub struct LlmConfig {
    /// Base URL of the completions API.
    pub base_url: String,
    /// Bearer token for the API.
    pub api_key: String,
    /// Model name sent with each request.
    pub model: String,
    /// Overrides the built-in system prompt when present.
    pub system_prompt: Option<String>,
    /// Token budget per completion.
    pub max_tokens: u32,
}

/// Settings for command execution.
pub struct ExecutorConfig {
    /// Working directory for spawned commands; absent means the process's
    /// current directory.
    pub working_dir: Option<String>,
    /// Per-command wall-clock timeout in seconds.
    pub timeout_secs: u64,
    /// Whether execution results are echoed back to the chat.
    pub echo_result: bool,
}

/// The whole configuration surface.
pub struct AppConfig {
    pub telegram: TelegramConfig,
    pub llm: LlmConfig,
    pub executor: ExecutorConfig,
}

/// The default token budget per completion.
pub fn default_max_tokens() -> (r: u32)
    ensures
        r == 2048u32,
{
    2048
}

/// The default per-command timeout in seconds.
pub fn default_timeout() -> (r: u64)
    ensures
        r == 120u64,
{
    120
}

/// The default for flags that are on unless configured off.
pub fn default_true() -> (r: bool)
    ensures
        r,
{
    true
}

impl Default for ExecutorConfig {
    /// No working directory override, a 120 second timeout, results echoed.
    fn default() -> (r: Self)
        ensures
            r.working_dir is None,
            r.timeout_secs == 120u64,
            r.echo_result,
    {
        ExecutorConfig { working_dir: None, timeout_secs: default_timeout(), echo_result: default_true() }
    }
}

} // verus!
