//! The command tool: how a command line is handed to the shell and how
//! the shell's output becomes the tool's answer.

use vstd::prelude::*;
use crate::error::{io_error_text, io_message, IO_ERROR_PREFIX};
use crate::permission::{allows_all, choice_outcome, refusal_text, Grant, PermissionState};
use crate::text::{lossy_utf8, owned, trim, trim_str, utf8_lossy, views};

verus! {

/// The arguments of the command tool: one complete command line.
#[derive(Debug, Clone, PartialEq, Eq)]
pub struct OperationArgs {
    pub command: String,
}

/// A failure of the command tool.
pub enum CmdError {
    StdError(std::io::Error),
    StringError(String),
}

/// The command tool.
pub struct RunCmd;

/// The prefix of the text of a failed command.
pub const CMD_FAILED_PREFIX: &'static str = "命令执行错误: ";

impl CmdError {
    /// The text of the error: `IO 错误: ` and the I/O error's text (made
    /// by `io_message`), or `命令执行错误: ` and the message.  The I/O
    /// error's text comes from the operating system and is not stated.
    pub fn message(&self) -> (r: String)
        ensures
            match self {
                CmdError::StdError(_) => exists|detail: Seq<char>| r@ == IO_ERROR_PREFIX@ + detail,
                CmdError::StringError(m) => r@ == CMD_FAILED_PREFIX@ + m@,
            },
    {
        match self {
            CmdError::StdError(e) => io_message(io_error_text(e).as_str()),
            CmdError::StringError(m) => {
                let mut r = owned(CMD_FAILED_PREFIX);
                r.append(m.as_str());
                r
            },
        }
    }
}

/// What a successful command without any output answers.
pub const NO_OUTPUT: &'static str = "命令已成功执行，无输出。";

/// The PowerShell prefix that makes the output UTF-8.
pub const POWERSHELL_UTF8_PREFIX: &'static str = "[Console]::OutputEncoding = [System.Text.Encoding]::UTF8; ";

/// The program and arguments that run `cmdline`: PowerShell on Windows,
/// `sh -c` elsewhere.
pub open spec fn shell_command(cmdline: Seq<char>, windows: bool) -> (Seq<char>, Seq<Seq<char>>) {
    if windows {
        (
            "powershell"@,
            seq![
                "-NoProfile"@,
                "-NonInteractive"@,
                "-Command"@,
                POWERSHELL_UTF8_PREFIX@ + cmdline,
            ],
        )
    } else {
        ("sh"@, seq!["-c"@, cmdline])
    }
}

/// The result of a finished command: the outcome a run gives for its exit
/// status (shown as `status`) and its trimmed, lossily decoded outputs.
pub open spec fn command_result_of(
    cmdline: Seq<char>,
    success: bool,
    status: Seq<char>,
    stdout: Seq<u8>,
    stderr: Seq<u8>,
) -> Result<Seq<char>, Seq<char>> {
    let out = trim(lossy_utf8(stdout));
    let err = trim(lossy_utf8(stderr));
    if success {
        if out.len() == 0 && err.len() > 0 {
            Ok(err)
        } else if out.len() == 0 {
            Ok(NO_OUTPUT@)
        } else {
            Ok(out)
        }
    } else {
        let msg = if err.len() == 0 {
            out
        } else {
            err
        };
        Err("命令 '"@ + cmdline + "' 执行失败 (状态码 "@ + status + "): "@ + msg)
    }
}

impl RunCmd {
    /// The program and arguments that run `cmdline` on this platform.
    pub fn shell_invocation(cmdline: &str, windows: bool) -> (r: (String, Vec<String>))
        ensures
            r.0@ == shell_command(cmdline@, windows).0,
            views(r.1@) == shell_command(cmdline@, windows).1,
    {
        let mut args: Vec<String> = Vec::new();
        if windows {
            args.push(owned("-NoProfile"));
            args.push(owned("-NonInteractive"));
            args.push(owned("-Command"));
            let mut c = owned(POWERSHELL_UTF8_PREFIX);
            c.append(cmdline);
            args.push(c);
            assert(views(args@) =~= shell_command(cmdline@, windows).1);
            (owned("powershell"), args)
        } else {
            args.push(owned("-c"));
            args.push(owned(cmdline));
            assert(views(args@) =~= shell_command(cmdline@, windows).1);
            (owned("sh"), args)
        }
    }

    /// The step between a requested command and the shell.  Where the
    /// session's level allows every operation, the command is handed out
    /// with no question asked.  Otherwise `reply` is what was read at the
    /// prompt (none where nobody was asked, which refuses), and the command
    /// is handed out only where that choice grants it; the level changes
    /// as the choice says.  What is handed out is the program and arguments
    /// that run `cmdline`, with the grant the choice made.
    pub fn authorize(
        state: &mut PermissionState,
        cmdline: &str,
        reply: Option<Result<char, std::io::Error>>,
        windows: bool,
    ) -> (r: Result<(Option<Grant>, String, Vec<String>), CmdError>)
        ensures
            r is Ok ==> allows_all(old(state).level) || (reply matches Some(Ok(c)) && choice_outcome(
                old(state).level,
                c,
            ).1 is Some),
            r matches Ok((_, program, args)) ==> program@ == shell_command(cmdline@, windows).0
                && views(args@) == shell_command(cmdline@, windows).1,
            allows_all(old(state).level) ==> final(state).level == old(state).level && (r matches Ok(
                (g, _, _),
            ) && g is None),
            !allows_all(old(state).level) ==> match reply {
                None => final(state).level == old(state).level && (r matches Err(
                    CmdError::StringError(m),
                ) && m@ == refusal_text("命令执行: "@ + cmdline@)),
                Some(Ok(c)) => {
                    &&& final(state).level == choice_outcome(old(state).level, c).0
                    &&& match choice_outcome(old(state).level, c).1 {
                        Some(g) => r matches Ok((h, _, _)) && h == Some(g),
                        None => r matches Err(CmdError::StringError(m)) && m@ == refusal_text(
                            "命令执行: "@ + cmdline@,
                        ),
                    }
                },
                Some(Err(_)) => final(state).level == old(state).level && (r matches Err(
                    CmdError::StdError(_),
                )),
            },
    {
        let grant = if !state.needs_prompt() {
            None
        } else {
            // with no reply read, the command is refused as for `n`
            let reply = match reply {
                Some(reply) => reply,
                None => Ok('n'),
            };
            match state.confirm_execution(cmdline, reply) {
                Ok(g) => Some(g),
                Err(e) => {
                    return Err(e);
                },
            }
        };
        let (program, args) = RunCmd::shell_invocation(cmdline, windows);
        Ok((grant, program, args))
    }

    /// The tool's answer for a finished command: on success its trimmed
    /// output (its error output where the output is blank, a fixed note
    /// where both are), on failure an error naming the command, the status
    /// and the error output (the output where that is blank).
    pub fn command_result(
        cmdline: &str,
        success: bool,
        status: &str,
        stdout: &[u8],
        stderr: &[u8],
    ) -> (r: Result<String, CmdError>)
        ensures
            match command_result_of(cmdline@, success, status@, stdout@, stderr@) {
                Ok(t) => r matches Ok(s) && s@ == t,
                Err(t) => r matches Err(CmdError::StringError(s)) && s@ == t,
            },
    {
        let out = trim_str(utf8_lossy(stdout).as_str());
        let err = trim_str(utf8_lossy(stderr).as_str());
        if success {
            if out.as_str().is_empty() && !err.as_str().is_empty() {
                Ok(err)
            } else if out.as_str().is_empty() {
                Ok(owned(NO_OUTPUT))
            } else {
                Ok(out)
            }
        } else {
            let msg = if err.as_str().is_empty() {
                out
            } else {
                err
            };
            let mut m = owned("命令 '");
            m.append(cmdline);
            m.append("' 执行失败 (状态码 ");
            m.append(status);
            m.append("): ");
            m.append(msg.as_str());
            Err(CmdError::StringError(m))
        }
    }
}

} // verus!
