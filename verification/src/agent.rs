//! The agent's set-up: the preamble that instructs the model, and the
//! small decisions the interactive loop makes about its input.

use vstd::prelude::*;
use crate::config::{effort_instruction, EffortLevel};
use crate::text::{chars_of, join, join_strings, owned, string_of, str_eq, trim, trim_str, views};

verus! {

/// The preamble up to the working directory.
pub const PREAMBLE_HEAD: &'static str = "你是一个专业的程序员助手，可以执行命令和读写文件来帮助用户完成任务。\n\n        【当前工作目录】\n        ";

/// The preamble between the working directory and the notes.
pub const PREAMBLE_TOOLS: &'static str = "\n\n        【可用工具】\n        - ReadFile：读取指定路径的文件内容，返回带行号的内容\n        - WriteFile：覆盖写入指定路径的文件（⚠️ 会覆盖已有内容）\n        - EditFile：精确编辑文件，查找并替换指定文本片段（old_string 必须唯一匹配）\n        - GetFileLines：获取文件总行数，用于评估文件规模\n        - ExecuteCommand：执行完整的命令行语句，支持 Windows/Linux/macOS\n\n        【变更策略 ⚠️ 必须遵守】\n        每次修改代码前，必须先在回答中列出变更计划：\n        1. 说明要修改哪些文件\n        2. 每个文件的修改目的和内容概述\n        3. 预估修改步骤数\n\n        修改过程中逐步骤报告进度（如 \"✅ 步骤 1/3: 已完成 xxx\"）。\n        全部修改完成后，总结实际变更内容。\n\n        【注意事项】\n        ";

/// The preamble between the notes and the answer style.
pub const PREAMBLE_STYLE: &'static str = "\n\n        【回答风格】\n        ";

/// The first note of the preamble.
pub const NOTE_RELATIVE_PATHS: &'static str = "- 所有相对路径都基于上述工作目录";

/// The second note of the preamble.
pub const NOTE_ABSOLUTE_PATHS: &'static str = "- 在执行命令或读写文件时，优先使用绝对路径";

/// The third note of the preamble.
pub const NOTE_EXPLORE: &'static str = "- 如果不确定某个文件的位置，先用 Get-ChildItem / ls 探索目录结构";

/// The fourth note of the preamble.
pub const NOTE_TEMPORARY_FILES: &'static str = "- 如果创建了临时文件用于某个命令，执行完后请及时删除以免混乱";

/// The note added on Windows PowerShell before version 7, which has no `&&`.
pub const NOTE_NO_AND_AND: &'static str = "- 当前环境为 Windows PowerShell 5.1，绝对禁止使用 '&&' 或 '||' 连接命令！请用 ';' 分隔或分次执行。";

/// The notes of the preamble: the four general ones, and the one against
/// `&&` where the shell is a PowerShell that lacks it.
pub open spec fn preamble_notes(no_and_and: bool) -> Seq<Seq<char>> {
    let base = seq![
        NOTE_RELATIVE_PATHS@,
        NOTE_ABSOLUTE_PATHS@,
        NOTE_EXPLORE@,
        NOTE_TEMPORARY_FILES@,
    ];
    if no_and_and {
        base.push(NOTE_NO_AND_AND@)
    } else {
        base
    }
}

/// The preamble for a working directory, the notes and the effort level's
/// instruction.
pub open spec fn preamble_text(cwd: Seq<char>, no_and_and: bool, instruction: Seq<char>) -> Seq<
    char,
> {
    PREAMBLE_HEAD@ + cwd + PREAMBLE_TOOLS@ + join(preamble_notes(no_and_and), "\n"@)
        + PREAMBLE_STYLE@ + instruction
}

/// The agent's preamble.  `no_and_and` holds on Windows where PowerShell
/// does not support `&&`.
pub fn build_preamble(cwd: &str, no_and_and: bool, effort: EffortLevel) -> (r: String)
    ensures
        r@ == preamble_text(cwd@, no_and_and, effort_instruction(effort)),
{
    let mut notes: Vec<String> = Vec::new();
    notes.push(owned(NOTE_RELATIVE_PATHS));
    notes.push(owned(NOTE_ABSOLUTE_PATHS));
    notes.push(owned(NOTE_EXPLORE));
    notes.push(owned(NOTE_TEMPORARY_FILES));
    if no_and_and {
        notes.push(owned(NOTE_NO_AND_AND));
    }
    assert(views(notes@) =~= preamble_notes(no_and_and));
    let instruction = effort.preamble_instruction();
    let mut r = owned(PREAMBLE_HEAD);
    r.append(cwd);
    r.append(PREAMBLE_TOOLS);
    let joined = join_strings(&notes, "\n");
    r.append(joined.as_str());
    r.append(PREAMBLE_STYLE);
    r.append(instruction);
    r
}

/// Whether PowerShell reported a major version of at least 7: its output,
/// where it was valid UTF-8, trimmed, is `True`.
pub fn powershell_supports_and_and(output: Option<&str>) -> (r: bool)
    ensures
        r == (output is Some && trim(output->0@) == "True"@),
{
    match output {
        Some(s) => {
            let t = trim_str(s);
            str_eq(t.as_str(), "True")
        },
        None => false,
    }
}

/// The number of characters of the first prompt that title a session.
pub const TITLE_CHARS: usize = 80;

/// The title of a session: the first 80 characters of its first prompt.
pub fn session_title(prompt: &str) -> (r: String)
    ensures
        r@ == (if prompt@.len() > TITLE_CHARS {
            prompt@.take(TITLE_CHARS as int)
        } else {
            prompt@
        }),
{
    let chars = chars_of(prompt);
    let n = if chars.len() > TITLE_CHARS {
        TITLE_CHARS
    } else {
        chars.len()
    };
    let r = string_of(&chars, 0, n);
    assert(chars@.subrange(0, n as int) =~= (if prompt@.len() > TITLE_CHARS {
        prompt@.take(TITLE_CHARS as int)
    } else {
        prompt@
    }));
    r
}

/// What the loop does with a line it read.
#[derive(Debug, Clone, Copy, PartialEq, Eq, Structural)]
pub enum InputKind {
    /// A blank line: read again.
    Blank,
    /// A slash command.
    Command,
    /// A prompt for the agent.
    Prompt,
}

/// How the loop treats a trimmed input line.
pub open spec fn input_kind_of(trimmed: Seq<char>) -> InputKind {
    if trimmed.len() == 0 {
        InputKind::Blank
    } else if trimmed[0] == '/' {
        InputKind::Command
    } else {
        InputKind::Prompt
    }
}

/// The input line trimmed, and how the loop treats it.
pub fn classify_input(line: &str) -> (r: (String, InputKind))
    ensures
        r.0@ == trim(line@),
        r.1 == input_kind_of(trim(line@)),
{
    let t = trim_str(line);
    let kind = if t.as_str().is_empty() {
        InputKind::Blank
    } else if t.as_str().get_char(0) == '/' {
        InputKind::Command
    } else {
        InputKind::Prompt
    };
    (t, kind)
}

/// Which conversation the program starts with.
#[derive(Debug, Clone, PartialEq, Eq)]
pub enum StartMode {
    /// The session with this id (`--session-id`).
    Session(String),
    /// The most recent session (`--continue`).
    ContinueLast,
    /// A session chosen from a list (`--resume`).
    Resume,
    /// A new session.
    New,
}

/// The conversation to start with: a given session id first, then
/// `--continue`, then `--resume`, else a new session.
pub fn start_mode(session_id: Option<String>, continue_last: bool, resume: bool) -> (r: StartMode)
    ensures
        match session_id {
            Some(id) => r == StartMode::Session(id),
            None => r == (if continue_last {
                StartMode::ContinueLast
            } else if resume {
                StartMode::Resume
            } else {
                StartMode::New
            }),
        },
{
    match session_id {
        Some(id) => StartMode::Session(id),
        None => if continue_last {
            StartMode::ContinueLast
        } else if resume {
            StartMode::Resume
        } else {
            StartMode::New
        },
    }
}

} // verus!
