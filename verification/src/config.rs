//! Configuration values: defaults, the reading of the environment's
//! settings, the effort levels and the paths of the agent's files.
//!
//! The environment itself is read by the caller; the functions here take
//! the value that a variable holds (`None` where it is unset or not
//! Unicode) and decide what the setting is.

use vstd::prelude::*;
use crate::text::{owned, parse_usize, parsed_usize, str_eq, to_lowercase, unicode_lowercase};

verus! {

/// The model that is used where `DEEPSEEK_MODEL` is not set.
pub const DEFAULT_MODEL: &'static str = "deepseek-v4-flash";

/// The agent turns per request where `SAAD_MAX_TURNS` is not set.
pub const DEFAULT_MAX_TURNS: usize = 100;

/// The token limit where `SAAD_MAX_TOKENS` is not set.
pub const DEFAULT_MAX_TOKENS: usize = 384000;

/// The number of stored messages beyond which the memory is compacted,
/// where `SAAD_MAX_HISTORY` is not set.
pub const MAX_HISTORY_MESSAGES: usize = 20;

/// The token limit of the concise effort level.
pub const CONCISE_MAX_TOKENS: usize = 4096;

/// The directory that holds the agent's files.
pub const CONFIG_DIR: &'static str = ".saad-agent";

/// The message given when no API key is configured.
pub const MISSING_API_KEY: &'static str = "未设置 DEEPSEEK_API_KEY 环境变量！\n请创建 .env 文件或在环境中设置: DEEPSEEK_API_KEY=sk-xxx";

/// The API key: the value of `DEEPSEEK_API_KEY` where it is set and not empty.
pub fn get_api_key(value: Option<&str>) -> (r: Result<String, String>)
    ensures
        value is Some && value->0@.len() > 0 ==> r is Ok && r->Ok_0@ == value->0@,
        !(value is Some && value->0@.len() > 0) ==> r is Err && r->Err_0@ == MISSING_API_KEY@,
{
    match value {
        Some(v) if !v.is_empty() => Ok(owned(v)),
        _ => Err(owned(MISSING_API_KEY)),
    }
}

/// The model name: the value of `DEEPSEEK_MODEL`, or the default model.
pub fn get_model_name(value: Option<&str>) -> (r: String)
    ensures
        r@ == match value {
            Some(v) => v@,
            None => DEFAULT_MODEL@,
        },
{
    match value {
        Some(v) => owned(v),
        None => owned(DEFAULT_MODEL),
    }
}

/// A numeric setting: the value parsed as `usize`, or `default` where the
/// value is unset or does not parse.
pub open spec fn numeric_setting(value: Option<&str>, default: usize) -> usize {
    match value {
        Some(v) => match parsed_usize(v@) {
            Some(n) => n,
            None => default,
        },
        None => default,
    }
}

fn read_numeric(value: Option<&str>, default: usize) -> (r: usize)
    ensures
        r == numeric_setting(value, default),
{
    match value {
        Some(v) => match parse_usize(v) {
            Some(n) => n,
            None => default,
        },
        None => default,
    }
}

/// The token limit: `SAAD_MAX_TOKENS` parsed, or the default.
pub fn get_max_tokens(value: Option<&str>) -> (r: usize)
    ensures
        r == numeric_setting(value, DEFAULT_MAX_TOKENS),
{
    read_numeric(value, DEFAULT_MAX_TOKENS)
}

/// The compaction threshold: `SAAD_MAX_HISTORY` parsed, or the default.
pub fn get_max_history_messages(value: Option<&str>) -> (r: usize)
    ensures
        r == numeric_setting(value, MAX_HISTORY_MESSAGES),
{
    read_numeric(value, MAX_HISTORY_MESSAGES)
}

/// The agent turns per request: `SAAD_MAX_TURNS` parsed, or the default.
pub fn get_max_turns(value: Option<&str>) -> (r: usize)
    ensures
        r == numeric_setting(value, DEFAULT_MAX_TURNS),
{
    read_numeric(value, DEFAULT_MAX_TURNS)
}

/// How detailed the agent's answers are.
#[derive(Debug, Clone, Copy, PartialEq, Eq, Structural)]
pub enum EffortLevel {
    Concise,
    Normal,
    Elaborate,
}

/// The instruction that the concise level adds to the preamble.
pub const CONCISE_INSTRUCTION: &'static str = "- 【重要】用最精炼的方式回答！直接给出方案和代码，避免冗长的背景介绍。用户问什么你就答什么，不要展开无关细节。";

/// The instruction that the elaborate level adds to the preamble.
pub const ELABORATE_INSTRUCTION: &'static str = "- 【重要】请提供详细的解释，展示思考过程，讨论替代方案和最佳实践。";

/// The level that a lower-cased setting names; anything unknown is `Normal`.
pub open spec fn effort_from_setting(lowered: Seq<char>) -> EffortLevel {
    if lowered == "concise"@ || lowered == "low"@ {
        EffortLevel::Concise
    } else if lowered == "elaborate"@ || lowered == "high"@ || lowered == "detailed"@ {
        EffortLevel::Elaborate
    } else {
        EffortLevel::Normal
    }
}

/// The level that a lower-cased command argument names, if any.
pub open spec fn effort_from_name(lowered: Seq<char>) -> Option<EffortLevel> {
    if lowered == "concise"@ || lowered == "low"@ {
        Some(EffortLevel::Concise)
    } else if lowered == "normal"@ {
        Some(EffortLevel::Normal)
    } else if lowered == "elaborate"@ || lowered == "high"@ || lowered == "detailed"@ {
        Some(EffortLevel::Elaborate)
    } else {
        None
    }
}

/// The name under which a level is shown and chosen.
pub open spec fn effort_name(level: EffortLevel) -> Seq<char> {
    match level {
        EffortLevel::Concise => "concise"@,
        EffortLevel::Normal => "normal"@,
        EffortLevel::Elaborate => "elaborate"@,
    }
}

/// The line that a level adds to the agent's preamble.
pub open spec fn effort_instruction(level: EffortLevel) -> Seq<char> {
    match level {
        EffortLevel::Concise => CONCISE_INSTRUCTION@,
        EffortLevel::Normal => ""@,
        EffortLevel::Elaborate => ELABORATE_INSTRUCTION@,
    }
}

impl EffortLevel {
    /// The line that this level adds to the agent's preamble.
    pub fn preamble_instruction(&self) -> (r: &'static str)
        ensures
            r@ == effort_instruction(*self),
    {
        match self {
            EffortLevel::Concise => CONCISE_INSTRUCTION,
            EffortLevel::Normal => "",
            EffortLevel::Elaborate => ELABORATE_INSTRUCTION,
        }
    }

    /// The token limit of this level; `max_tokens_setting` is the value of
    /// `SAAD_MAX_TOKENS`.
    pub fn max_tokens(&self, max_tokens_setting: Option<&str>) -> (r: usize)
        ensures
            r == match *self {
                EffortLevel::Concise => CONCISE_MAX_TOKENS,
                _ => numeric_setting(max_tokens_setting, DEFAULT_MAX_TOKENS),
            },
    {
        match self {
            EffortLevel::Concise => CONCISE_MAX_TOKENS,
            EffortLevel::Normal => get_max_tokens(max_tokens_setting),
            EffortLevel::Elaborate => get_max_tokens(max_tokens_setting),
        }
    }

    /// The name under which the level is shown and chosen.
    pub fn display_name(&self) -> (r: &'static str)
        ensures
            r@ == effort_name(*self),
    {
        match self {
            EffortLevel::Concise => "concise",
            EffortLevel::Normal => "normal",
            EffortLevel::Elaborate => "elaborate",
        }
    }

    /// The level that a lower-cased name chooses, if it names one.
    pub fn from_str(lowered: &str) -> (r: Option<EffortLevel>)
        ensures
            r == effort_from_name(lowered@),
    {
        if str_eq(lowered, "concise") || str_eq(lowered, "low") {
            Some(EffortLevel::Concise)
        } else if str_eq(lowered, "normal") {
            Some(EffortLevel::Normal)
        } else if str_eq(lowered, "elaborate") || str_eq(lowered, "high") || str_eq(
            lowered,
            "detailed",
        ) {
            Some(EffortLevel::Elaborate)
        } else {
            None
        }
    }
}

/// The effort level: `SAAD_EFFORT` lower-cased; `concise`/`low` and
/// `elaborate`/`high`/`detailed` choose those levels, anything else (an
/// unset variable too) is `Normal`.
pub fn get_effort_level(value: Option<&str>) -> (r: EffortLevel)
    ensures
        r == effort_from_setting(
            unicode_lowercase(
                match value {
                    Some(v) => v@,
                    None => ""@,
                },
            ),
        ),
{
    let raw = match value {
        Some(v) => v,
        None => "",
    };
    let lowered = to_lowercase(raw);
    let l = lowered.as_str();
    if str_eq(l, "concise") || str_eq(l, "low") {
        EffortLevel::Concise
    } else if str_eq(l, "elaborate") || str_eq(l, "high") || str_eq(l, "detailed") {
        EffortLevel::Elaborate
    } else {
        EffortLevel::Normal
    }
}

/// Reads `std::path::MAIN_SEPARATOR`, the separator that `PathBuf::join`
/// puts between path components: `/` on Unix, `\` on Windows, as its
/// documentation says.
#[verifier::external_body]
fn main_separator() -> (c: char)
    ensures
        c == '/' || c == '\\',
{
    std::path::MAIN_SEPARATOR
}

/// The path of `file` inside the configuration directory, written with
/// the platform separator `sep`.
pub open spec fn config_file_path(sep: char, file: Seq<char>) -> Seq<char> {
    CONFIG_DIR@.push(sep) + file
}

fn config_file(file: &str) -> (r: String)
    ensures
        exists|sep: char| (sep == '/' || sep == '\\') && r@ == config_file_path(sep, file@),
{
    let sep = main_separator();
    let mut r = owned(CONFIG_DIR);
    r.push(sep);
    r.append(file);
    assert(r@ == config_file_path(sep, file@));
    r
}

/// The file that records a permanent permission.
pub fn perm_config_path() -> (r: String)
    ensures
        exists|sep: char|
            (sep == '/' || sep == '\\') && r@ == config_file_path(sep, "permission.toml"@),
{
    config_file("permission.toml")
}

/// The file that holds the saved conversation history.
pub fn history_path() -> (r: String)
    ensures
        exists|sep: char|
            (sep == '/' || sep == '\\') && r@ == config_file_path(sep, "history.json"@),
{
    config_file("history.json")
}

/// Each level's own name chooses that level, as a setting and as a
/// command argument; so do the other names the levels answer to: `low`
/// for the concise level, `high` and `detailed` for the elaborate one.
pub proof fn law_names_choose_their_level(level: EffortLevel)
    ensures
        effort_from_setting(effort_name(level)) == level,
        effort_from_name(effort_name(level)) == Some(level),
        effort_from_setting("low"@) == EffortLevel::Concise,
        effort_from_setting("high"@) == EffortLevel::Elaborate,
        effort_from_setting("detailed"@) == EffortLevel::Elaborate,
        effort_from_name("low"@) == Some(EffortLevel::Concise),
        effort_from_name("high"@) == Some(EffortLevel::Elaborate),
        effort_from_name("detailed"@) == Some(EffortLevel::Elaborate),
{
    reveal_strlit("concise");
    reveal_strlit("normal");
    reveal_strlit("elaborate");
    reveal_strlit("low");
    reveal_strlit("high");
    reveal_strlit("detailed");
    assert("concise"@.len() == 7);
    assert("normal"@.len() == 6);
    assert("elaborate"@.len() == 9);
    assert("low"@.len() == 3);
    assert("high"@.len() == 4);
    assert("detailed"@.len() == 8);
    match level {
        EffortLevel::Concise => {},
        EffortLevel::Normal => {},
        EffortLevel::Elaborate => {},
    }
}

/// A setting that names no level leaves the effort at `Normal`, and an
/// unset one too.
pub proof fn law_unknown_setting_is_normal(lowered: Seq<char>)
    requires
        lowered != "concise"@ && lowered != "low"@ && lowered != "elaborate"@ && lowered != "high"@
            && lowered != "detailed"@,
    ensures
        effort_from_setting(lowered) == EffortLevel::Normal,
        effort_from_setting(""@) == EffortLevel::Normal,
{
    reveal_strlit("");
    reveal_strlit("concise");
    reveal_strlit("low");
    reveal_strlit("elaborate");
    reveal_strlit("high");
    reveal_strlit("detailed");
    assert(""@.len() == 0);
    assert("concise"@.len() == 7);
    assert("elaborate"@.len() == 9);
    assert("low"@.len() == 3);
    assert("high"@.len() == 4);
    assert("detailed"@.len() == 8);
}

} // verus!
