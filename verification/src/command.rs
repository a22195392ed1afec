//! The slash commands of the interactive loop: which command a line
//! names, and what `/effort` decides.

use vstd::prelude::*;
use crate::config::{effort_from_name, EffortLevel};
use crate::text::{chars_of, starts_with, str_eq, string_of, to_lowercase, trim, trim_str, unicode_lowercase};

verus! {

/// What the loop does after a command.
#[derive(Debug, Clone, Copy, PartialEq, Eq, Structural)]
pub enum CommandResult {
    /// Keep running.
    Continue,
    /// Leave the program.
    Exit,
    /// Rebuild the agent, because the effort level changed.
    RebuildAgent,
}

/// The command that a line starting with `/` names.
#[derive(Debug, Clone, Copy, PartialEq, Eq, Structural)]
pub enum SlashCommand {
    /// `/exit` or `/quit`.
    Exit,
    /// A line starting with `/effort`.
    Effort,
    /// `/help`.
    Help,
    /// `/clear`.
    Clear,
    /// `/save`.
    Save,
    /// `/load`.
    Load,
    /// `/history`.
    History,
    /// Anything else.
    Unknown,
}

/// The command that a lower-cased line names.
pub open spec fn command_of(lowered: Seq<char>) -> SlashCommand {
    if lowered == "/exit"@ || lowered == "/quit"@ {
        SlashCommand::Exit
    } else if "/effort"@.is_prefix_of(lowered) {
        SlashCommand::Effort
    } else if lowered == "/help"@ {
        SlashCommand::Help
    } else if lowered == "/clear"@ {
        SlashCommand::Clear
    } else if lowered == "/save"@ {
        SlashCommand::Save
    } else if lowered == "/load"@ {
        SlashCommand::Load
    } else if lowered == "/history"@ {
        SlashCommand::History
    } else {
        SlashCommand::Unknown
    }
}

/// The command that `cmd` names, compared without regard to case, and the
/// lower-cased line.
pub fn parse_command(cmd: &str) -> (r: (SlashCommand, String))
    ensures
        r.1@ == unicode_lowercase(cmd@),
        r.0 == command_of(r.1@),
{
    let lowered = to_lowercase(cmd);
    let l = lowered.as_str();
    let c = if str_eq(l, "/exit") || str_eq(l, "/quit") {
        SlashCommand::Exit
    } else if starts_with(l, "/effort") {
        SlashCommand::Effort
    } else if str_eq(l, "/help") {
        SlashCommand::Help
    } else if str_eq(l, "/clear") {
        SlashCommand::Clear
    } else if str_eq(l, "/save") {
        SlashCommand::Save
    } else if str_eq(l, "/load") {
        SlashCommand::Load
    } else if str_eq(l, "/history") {
        SlashCommand::History
    } else {
        SlashCommand::Unknown
    };
    (c, lowered)
}

/// What `/effort` decides.
#[derive(Debug, Clone, PartialEq, Eq)]
pub enum EffortDecision {
    /// No argument: show the current level.
    ShowCurrent(EffortLevel),
    /// The named level is already the current one.
    AlreadySet(EffortLevel),
    /// Switch to the named level and rebuild the agent.
    Switch(EffortLevel),
    /// The argument names no level.
    Invalid(String),
}

/// The argument of an `/effort` line: what follows `/effort`, trimmed and
/// lower-cased; empty where the line does not start with `/effort`.
pub open spec fn effort_argument(cmd: Seq<char>) -> Seq<char> {
    unicode_lowercase(
        trim(
            if "/effort"@.is_prefix_of(cmd) {
                cmd.skip(7)
            } else {
                Seq::empty()
            },
        ),
    )
}

/// Decides an `/effort` line against the current level.
pub fn handle_effort(cmd: &str, current: EffortLevel) -> (r: EffortDecision)
    ensures
        ({
            let arg = effort_argument(cmd@);
            if arg.len() == 0 {
                r == EffortDecision::ShowCurrent(current)
            } else {
                match effort_from_name(arg) {
                    Some(level) => if level == current {
                        r == EffortDecision::AlreadySet(level)
                    } else {
                        r == EffortDecision::Switch(level)
                    },
                    None => r matches EffortDecision::Invalid(a) && a@ == arg,
                }
            }
        }),
{
    let chars = chars_of(cmd);
    let rest = if starts_with(cmd, "/effort") {
        proof {
            reveal_strlit("/effort");
        }
        string_of(&chars, 7, chars.len())
    } else {
        String::new()
    };
    proof {
        reveal_strlit("/effort");
        if "/effort"@.is_prefix_of(cmd@) {
            assert(rest@ =~= cmd@.skip(7));
        } else {
            assert(rest@ =~= Seq::<char>::empty());
        }
    }
    let trimmed = trim_str(rest.as_str());
    let arg = to_lowercase(trimmed.as_str());
    if arg.as_str().is_empty() {
        return EffortDecision::ShowCurrent(current);
    }
    match EffortLevel::from_str(arg.as_str()) {
        Some(level) => {
            if level == current {
                EffortDecision::AlreadySet(level)
            } else {
                EffortDecision::Switch(level)
            }
        },
        None => EffortDecision::Invalid(arg),
    }
}

impl EffortDecision {
    /// What the loop does after the decision: rebuild the agent after a
    /// switch, else keep running.
    pub fn command_result(&self) -> (r: CommandResult)
        ensures
            r == (if self is Switch {
                CommandResult::RebuildAgent
            } else {
                CommandResult::Continue
            }),
    {
        match self {
            EffortDecision::Switch(_) => CommandResult::RebuildAgent,
            _ => CommandResult::Continue,
        }
    }
}

/// How many messages `/history` shows at most.
pub const HISTORY_WINDOW: usize = 5;

/// The index of the first message that `/history` shows: the last five
/// are shown.
pub fn history_window_start(len: usize) -> (r: usize)
    ensures
        r == (if len > HISTORY_WINDOW {
            len - HISTORY_WINDOW
        } else {
            0
        }),
{
    if len > HISTORY_WINDOW {
        len - HISTORY_WINDOW
    } else {
        0
    }
}

} // verus!
