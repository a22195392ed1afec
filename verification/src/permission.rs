//! The permission state machine that guards command execution and file
//! writes.  A level is kept for the session: each operation is asked
//! about, all are allowed for the session, or all are allowed for good
//! (which the caller records on disk).
//!
//! The caller asks the user where `needs_prompt` says so, reads a line,
//! and hands it back through `parse_choice` and `confirm_execution` or
//! `confirm_file_write`; what these return tells it whether to go on and
//! whether to record the permanent permission.

use vstd::prelude::*;
use crate::text::{all_ascii, ascii_lower, owned, str_eq, to_lowercase, trim, trim_str, unicode_lowercase};
use crate::tool::cmd::CmdError;
use crate::tool::fs::FsError;

verus! {

/// Level: every operation is asked about.
pub const PERM_PROMPT: u8 = 0;

/// Level: every operation of this session is allowed.
pub const PERM_SESSION_ALLOW_ALL: u8 = 1;

/// Level: every operation is allowed, now and in later sessions.
pub const PERM_PERMANENT_ALLOW_ALL: u8 = 2;

/// The content of the permission file that records a permanent permission.
pub const PERMANENT_MARK: &'static str = "allow_all";

/// Whether a level allows operations without asking.
pub open spec fn allows_all(level: u8) -> bool {
    level == PERM_SESSION_ALLOW_ALL || level == PERM_PERMANENT_ALLOW_ALL
}

/// The permission level of a session.
pub struct PermissionState {
    pub level: u8,
}

/// What an accepted choice grants.
#[derive(Debug, Clone, Copy, PartialEq, Eq, Structural)]
pub enum Grant {
    /// This operation only.
    Once,
    /// Every operation of this session.
    Session,
    /// Every operation, now and later; the caller records it on disk.
    Permanent,
}

/// The level after a choice, and what the choice answers.
pub open spec fn choice_outcome(level: u8, choice: char) -> (u8, Option<Grant>) {
    if choice == 'y' {
        (level, Some(Grant::Once))
    } else if choice == 'a' {
        (PERM_SESSION_ALLOW_ALL, Some(Grant::Session))
    } else if choice == 'p' {
        (PERM_PERMANENT_ALLOW_ALL, Some(Grant::Permanent))
    } else {
        (level, None)
    }
}

/// The refusal text for an operation described by `action_desc`.
pub open spec fn refusal_text(action_desc: Seq<char>) -> Seq<char> {
    "用户拒绝了操作: "@ + action_desc
}

/// The choice that a line typed at the prompt makes: the first character
/// of the trimmed line, lower-cased, or `n` where the line is blank.
pub open spec fn choice_of(line: Seq<char>) -> char {
    let lowered = unicode_lowercase(trim(line));
    if lowered.len() > 0 {
        lowered[0]
    } else {
        'n'
    }
}

/// The choice that a line typed at the prompt makes.
pub fn parse_choice(line: &str) -> (c: char)
    ensures
        c == choice_of(line@),
        all_ascii(trim(line@)) && trim(line@).len() > 0 ==> c == ascii_lower(trim(line@)[0]),
        trim(line@).len() == 0 ==> c == 'n',
{
    let trimmed = trim_str(line);
    let lowered = to_lowercase(trimmed.as_str());
    proof {
        if trim(line@).len() == 0 {
            assert(all_ascii(trim(line@)));
            assert(trim(line@).map_values(|c: char| ascii_lower(c)) =~= Seq::<char>::empty());
        }
    }
    if lowered.as_str().is_empty() {
        'n'
    } else {
        lowered.as_str().get_char(0)
    }
}

impl PermissionState {
    /// A session that asks about every operation.
    pub fn new() -> (r: Self)
        ensures
            r.level == PERM_PROMPT,
    {
        PermissionState { level: PERM_PROMPT }
    }

    /// Whether the user must be asked before an operation.
    pub fn needs_prompt(&self) -> (r: bool)
        ensures
            r == !allows_all(self.level),
    {
        !(self.level == PERM_SESSION_ALLOW_ALL || self.level == PERM_PERMANENT_ALLOW_ALL)
    }

    /// Applies the content of the permission file, where it could be read:
    /// the trimmed content `allow_all` grants the permanent level; anything
    /// else leaves the level as it is.
    pub fn load_permanent_permission(&mut self, file_content: Option<&str>)
        ensures
            final(self).level == (if file_content is Some && trim(file_content->0@)
                == PERMANENT_MARK@ {
                PERM_PERMANENT_ALLOW_ALL
            } else {
                old(self).level
            }),
    {
        if let Some(data) = file_content {
            let t = trim_str(data);
            if str_eq(t.as_str(), PERMANENT_MARK) {
                self.level = PERM_PERMANENT_ALLOW_ALL;
            }
        }
    }

    /// Applies the user's choice for the operation `action_desc`: `y`
    /// allows it once, `a` for the session, `p` for good; anything else
    /// refuses it and leaves the level unchanged.
    pub fn handle_choice(&mut self, choice: char, action_desc: &str) -> (r: Result<Grant, String>)
        ensures
            final(self).level == choice_outcome(old(self).level, choice).0,
            match choice_outcome(old(self).level, choice).1 {
                Some(g) => r == Ok::<Grant, String>(g),
                None => r is Err && r->Err_0@ == refusal_text(action_desc@),
            },
    {
        if choice == 'y' {
            Ok(Grant::Once)
        } else if choice == 'a' {
            self.level = PERM_SESSION_ALLOW_ALL;
            Ok(Grant::Session)
        } else if choice == 'p' {
            self.level = PERM_PERMANENT_ALLOW_ALL;
            Ok(Grant::Permanent)
        } else {
            let mut m = owned("用户拒绝了操作: ");
            m.append(action_desc);
            Err(m)
        }
    }

    /// Decides on running `cmdline` once the user was asked: `reply` is the
    /// choice read, or the failure to read one.
    pub fn confirm_execution(&mut self, cmdline: &str, reply: Result<char, std::io::Error>) -> (r:
        Result<Grant, CmdError>)
        ensures
            match reply {
                Ok(c) => {
                    &&& final(self).level == choice_outcome(old(self).level, c).0
                    &&& match choice_outcome(old(self).level, c).1 {
                        Some(g) => r matches Ok(h) && h == g,
                        None => r matches Err(CmdError::StringError(m)) && m@ == refusal_text(
                            "命令执行: "@ + cmdline@,
                        ),
                    }
                },
                Err(_) => final(self).level == old(self).level && r matches Err(
                    CmdError::StdError(_),
                ),
            },
    {
        match reply {
            Ok(choice) => {
                let mut desc = owned("命令执行: ");
                desc.append(cmdline);
                match self.handle_choice(choice, desc.as_str()) {
                    Ok(g) => Ok(g),
                    Err(m) => Err(CmdError::StringError(m)),
                }
            },
            Err(e) => Err(CmdError::StdError(e)),
        }
    }

    /// Decides on reading the file `path`, outside the working directory,
    /// once the user was asked: `reply` is the choice read, or the failure
    /// to read one.
    pub fn confirm_file_read(&mut self, path: &str, reply: Result<char, std::io::Error>) -> (r:
        Result<Grant, FsError>)
        ensures
            match reply {
                Ok(c) => {
                    &&& final(self).level == choice_outcome(old(self).level, c).0
                    &&& match choice_outcome(old(self).level, c).1 {
                        Some(g) => r matches Ok(h) && h == g,
                        None => r matches Err(FsError::Other(m)) && m@ == refusal_text(
                            "文件读取: "@ + path@,
                        ),
                    }
                },
                Err(_) => final(self).level == old(self).level && r matches Err(FsError::Io(_)),
            },
    {
        match reply {
            Ok(choice) => {
                let mut desc = owned("文件读取: ");
                desc.append(path);
                match self.handle_choice(choice, desc.as_str()) {
                    Ok(g) => Ok(g),
                    Err(m) => Err(FsError::Other(m)),
                }
            },
            Err(e) => Err(FsError::Io(e)),
        }
    }

    /// Decides on writing the file `path` once the user was asked: `reply`
    /// is the choice read, or the failure to read one.
    pub fn confirm_file_write(&mut self, path: &str, reply: Result<char, std::io::Error>) -> (r:
        Result<Grant, FsError>)
        ensures
            match reply {
                Ok(c) => {
                    &&& final(self).level == choice_outcome(old(self).level, c).0
                    &&& match choice_outcome(old(self).level, c).1 {
                        Some(g) => r matches Ok(h) && h == g,
                        None => r matches Err(FsError::Other(m)) && m@ == refusal_text(
                            "文件写入: "@ + path@,
                        ),
                    }
                },
                Err(_) => final(self).level == old(self).level && r matches Err(FsError::Io(_)),
            },
    {
        match reply {
            Ok(choice) => {
                let mut desc = owned("文件写入: ");
                desc.append(path);
                match self.handle_choice(choice, desc.as_str()) {
                    Ok(g) => Ok(g),
                    Err(m) => Err(FsError::Other(m)),
                }
            },
            Err(e) => Err(FsError::Io(e)),
        }
    }
}

// ------------------------------------------------------------------
// Laws
// ------------------------------------------------------------------

/// Once every operation is allowed, it stays so: no choice takes the
/// level back to asking.
pub proof fn law_allowance_is_never_withdrawn(level: u8, choice: char)
    requires
        allows_all(level),
    ensures
        allows_all(choice_outcome(level, choice).0),
{
}

/// `a` and `p` end the asking: after either, no operation is asked about;
/// `p` asks the caller to record the permission.
pub proof fn law_allow_all_choices(level: u8)
    ensures
        allows_all(choice_outcome(level, 'a').0),
        allows_all(choice_outcome(level, 'p').0),
        choice_outcome(level, 'p').1 == Some(Grant::Permanent),
        choice_outcome(level, 'p').0 == PERM_PERMANENT_ALLOW_ALL,
{
}

/// Refusing changes nothing: any choice other than `y`, `a` and `p` leaves
/// the level as it was and allows nothing; `y` allows one operation and
/// keeps the level too.
pub proof fn law_refusal_keeps_level(level: u8, choice: char)
    requires
        choice != 'a' && choice != 'p',
    ensures
        choice_outcome(level, choice).0 == level,
        choice != 'y' ==> choice_outcome(level, choice).1 is None,
{
}

/// `y` allows the one operation at every level and changes nothing else.
pub proof fn law_yes_allows_once(level: u8)
    ensures
        choice_outcome(level, 'y') == (level, Some(Grant::Once)),
{
}

/// Only `y`, `a` and `p` grant anything, and each grants at every level:
/// the answer decides, not the level it is given at.
pub proof fn law_grant_depends_on_answer_only(level: u8, other: u8, choice: char)
    ensures
        choice_outcome(level, choice).1 == choice_outcome(other, choice).1,
        (choice_outcome(level, choice).1 is Some) == (choice == 'y' || choice == 'a' || choice
            == 'p'),
{
}

} // verus!
