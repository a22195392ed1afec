//! The file tools: reading with numbered lines and writing.

use vstd::prelude::*;
use crate::error::{io_error_text, io_message, IO_ERROR_PREFIX};
use crate::permission::{allows_all, choice_outcome, refusal_text, Grant, PermissionState};
use crate::text::{
    decimal, decimal_string, join, join_strings, lines, owned, pad_left, push_decimal, push_padded,
    split_lines, starts_with, str_eq, views,
};

verus! {

/// The arguments of the read tool.
#[derive(Debug, Clone, PartialEq, Eq)]
pub struct ReadFileArgs {
    pub path: String,
    pub max_lines: Option<usize>,
}

/// A failure of a file tool.
pub enum FsError {
    Io(std::io::Error),
    Other(String),
}

/// The read tool.
pub struct ReadFile;

/// The arguments of the write tool.
#[derive(Debug, Clone, PartialEq, Eq)]
pub struct WriteFileArgs {
    pub path: String,
    pub content: String,
}

/// The write tool.
pub struct WriteFile;

impl FsError {
    /// The text of the error: `IO 错误: ` and the I/O error's text (made
    /// by `io_message`), or the message itself.  The I/O error's text comes
    /// from the operating system and is not stated.
    pub fn message(&self) -> (r: String)
        ensures
            match self {
                FsError::Io(_) => exists|detail: Seq<char>| r@ == IO_ERROR_PREFIX@ + detail,
                FsError::Other(m) => r@ == m@,
            },
    {
        match self {
            FsError::Io(e) => io_message(io_error_text(e).as_str()),
            FsError::Other(m) => owned(m.as_str()),
        }
    }
}

/// The number of lines the read tool shows where no limit is given.
pub const DEFAULT_MAX_LINES: usize = 500;

/// The width of the line-number column.
pub const LINE_NUMBER_WIDTH: usize = 6;

/// Line `index` (counted from 0) as listed: its number from 1, right
/// aligned in a column of six, `" | "`, and the line.
pub open spec fn numbered_line(index: nat, line: Seq<char>) -> Seq<char> {
    pad_left(decimal(index + 1), LINE_NUMBER_WIDTH as nat) + " | "@ + line
}

/// Each line numbered from 1.
pub open spec fn numbered_lines(ls: Seq<Seq<char>>) -> Seq<Seq<char>> {
    Seq::new(ls.len(), |i: int| numbered_line(i as nat, ls[i]))
}

/// The read tool's answer for a file's content: its first `max_lines`
/// lines, numbered and joined by newlines, and a note with the total where
/// lines were left out.
pub open spec fn file_listing(content: Seq<char>, max_lines: nat) -> Seq<char> {
    let ls = lines(content);
    let total = ls.len();
    let shown = if total > max_lines {
        ls.take(max_lines as int)
    } else {
        ls
    };
    let body = join(numbered_lines(shown), "\n"@);
    if total > max_lines {
        body + "\n\n... (已截断，共 "@ + decimal(total) + " 行，只显示前 "@ + decimal(max_lines)
            + " 行)"@
    } else {
        body
    }
}

/// The limit on listed lines: the one given, or 500.
pub open spec fn line_limit(max_lines: Option<usize>) -> nat {
    match max_lines {
        Some(m) => m as nat,
        None => DEFAULT_MAX_LINES as nat,
    }
}

/// Whether the path `path` lies in the directory `base`, both written
/// alike (as canonical paths are): it is `base` itself, or it begins with
/// `base` and the separator `sep` (or with `base` alone where that ends in
/// the separator, as a root does).
pub open spec fn within_dir(base: Seq<char>, path: Seq<char>, sep: char) -> bool {
    ||| path == base
    ||| base.push(sep).is_prefix_of(path)
    ||| (base.len() > 0 && base.last() == sep && base.is_prefix_of(path))
}

/// Whether a file operation stays inside the working directory `base`:
/// `resolved`, the nearest existing ancestor of its target (the target
/// itself where it exists) with links and `..` resolved, lies in `base`,
/// and none of `rest`, the components below that ancestor, climbs up.  A
/// `..` below a directory that does not exist yet counts as leaving.
pub open spec fn stays_within(
    base: Seq<char>,
    resolved: Seq<char>,
    rest: Seq<Seq<char>>,
    sep: char,
) -> bool {
    &&& within_dir(base, resolved, sep)
    &&& forall|i: int| 0 <= i < rest.len() ==> rest[i] != ".."@
}

/// Whether a file operation stays inside the working directory `base`,
/// given its target's nearest existing ancestor `resolved` and the
/// components `rest` below it.
pub fn path_within(base: &str, resolved: &str, rest: &Vec<String>, sep: char) -> (r: bool)
    ensures
        r == stays_within(base@, resolved@, views(rest@), sep),
{
    let mut with_sep = owned(base);
    with_sep.push(sep);
    let n = base.unicode_len();
    let inside = if str_eq(resolved, base) {
        true
    } else if starts_with(resolved, with_sep.as_str()) {
        true
    } else if n > 0 && base.get_char(n - 1) == sep {
        starts_with(resolved, base)
    } else {
        false
    };
    if !inside {
        return false;
    }
    let mut i: usize = 0;
    while i < rest.len()
        invariant
            i <= rest@.len(),
            forall|j: int| 0 <= j < i ==> views(rest@)[j] != ".."@,
        decreases rest@.len() - i,
    {
        if str_eq(rest[i].as_str(), "..") {
            assert(views(rest@)[i as int] == rest@[i as int]@);
            return false;
        }
        i = i + 1;
    }
    true
}

impl ReadFile {
    /// The tool's answer for a file's content, listing at most `max_lines`
    /// lines (500 where none is given).
    pub fn format_listing(content: &str, max_lines: Option<usize>) -> (r: String)
        ensures
            r@ == file_listing(content@, line_limit(max_lines)),
    {
        let max = match max_lines {
            Some(m) => m,
            None => DEFAULT_MAX_LINES,
        };
        let ls = split_lines(content);
        let total = ls.len();
        let shown = if total > max {
            max
        } else {
            total
        };
        let ghost all = views(ls@);
        let ghost shown_lines = if total > max {
            all.take(max as int)
        } else {
            all
        };
        assert(shown_lines.len() == shown);
        let mut numbered: Vec<String> = Vec::new();
        let mut i: usize = 0;
        while i < shown
            invariant
                shown <= ls@.len(),
                all == views(ls@),
                shown_lines.len() == shown,
                forall|j: int| 0 <= j < shown ==> shown_lines[j] == all[j],
                i <= shown,
                numbered@.len() == i,
                forall|j: int|
                    0 <= j < i ==> (#[trigger] numbered@[j])@ == numbered_line(
                        j as nat,
                        shown_lines[j],
                    ),
            decreases shown - i,
        {
            let mut line = String::new();
            let number = decimal_string(i + 1);
            push_padded(&mut line, number.as_str(), LINE_NUMBER_WIDTH);
            line.append(" | ");
            line.append(ls[i].as_str());
            numbered.push(line);
            i = i + 1;
        }
        assert(views(numbered@) =~= numbered_lines(shown_lines));
        let mut result = join_strings(&numbered, "\n");
        if total > max {
            result.append("\n\n... (已截断，共 ");
            push_decimal(&mut result, total);
            result.append(" 行，只显示前 ");
            push_decimal(&mut result, max);
            result.append(" 行)");
        }
        result
    }

    /// The step between a requested read and the file system.  A read
    /// inside the working directory (`inside`) goes on with no question
    /// asked.  A read outside it goes on only where `reply`, what was read
    /// at the prompt (none where nobody was asked, which refuses), grants
    /// it, whatever the level; the level changes as the choice says.  `Ok`
    /// carries the grant the choice made.
    pub fn authorize(
        state: &mut PermissionState,
        path: &str,
        inside: bool,
        reply: Option<Result<char, std::io::Error>>,
    ) -> (r: Result<Option<Grant>, FsError>)
        ensures
            r is Ok ==> inside || (reply matches Some(Ok(c)) && choice_outcome(
                old(state).level,
                c,
            ).1 is Some),
            inside ==> final(state).level == old(state).level && r == Ok::<
                Option<Grant>,
                FsError,
            >(None),
            !inside ==> match reply {
                None => final(state).level == old(state).level && (r matches Err(FsError::Other(m))
                    && m@ == refusal_text("文件读取: "@ + path@)),
                Some(Ok(c)) => {
                    &&& final(state).level == choice_outcome(old(state).level, c).0
                    &&& match choice_outcome(old(state).level, c).1 {
                        Some(g) => r matches Ok(h) && h == Some(g),
                        None => r matches Err(FsError::Other(m)) && m@ == refusal_text(
                            "文件读取: "@ + path@,
                        ),
                    }
                },
                Some(Err(_)) => final(state).level == old(state).level && (r matches Err(
                    FsError::Io(_),
                )),
            },
    {
        if inside {
            return Ok(None);
        }
        // with no reply read, the read is refused as for `n`
        let reply = match reply {
            Some(reply) => reply,
            None => Ok('n'),
        };
        match state.confirm_file_read(path, reply) {
            Ok(g) => Ok(Some(g)),
            Err(e) => Err(e),
        }
    }

    /// The error for a file that could not be read: `无法读取文件 '`, the
    /// path, `': ` and the I/O error's text, which comes from the operating
    /// system and is not stated.
    pub fn read_failed(path: &str, err: &std::io::Error) -> (r: FsError)
        ensures
            r matches FsError::Other(m) && exists|detail: Seq<char>| m@ == failure_text_of(
                "无法读取文件 '"@,
                path@,
                detail,
            ),
    {
        FsError::Other(failure_text("无法读取文件 '", path, err))
    }
}

/// The text of a failed file operation: what failed, the path in quotes,
/// and the I/O error's own text `detail`.
pub open spec fn failure_text_of(what: Seq<char>, path: Seq<char>, detail: Seq<char>) -> Seq<char> {
    what + path + "': "@ + detail
}

/// The text of a failed file operation whose I/O error's own text is
/// `detail`.
pub fn failure_message(what: &str, path: &str, detail: &str) -> (r: String)
    ensures
        r@ == failure_text_of(what@, path@, detail@),
{
    let mut m = owned(what);
    m.append(path);
    m.append("': ");
    m.append(detail);
    m
}

/// The text of a failed file operation; the I/O error's text comes from the
/// operating system and is not stated.
fn failure_text(what: &str, path: &str, err: &std::io::Error) -> (r: String)
    ensures
        exists|detail: Seq<char>| r@ == failure_text_of(what@, path@, detail),
{
    failure_message(what, path, io_error_text(err).as_str())
}

/// The write tool's answer: the path and the number of bytes written.
pub open spec fn write_report(path: Seq<char>, byte_len: nat) -> Seq<char> {
    "✅ 已成功写入文件: "@ + path + " ("@ + decimal(byte_len) + " 字节)"@
}

impl WriteFile {
    /// The tool's answer after writing `content` to `path`; the size is
    /// the length of the content in bytes (its UTF-8 encoding).
    pub fn success_message(path: &str, content: &str) -> (r: String)
        ensures
            r@ == write_report(path@, content.len() as nat),
    {
        let mut r = owned("✅ 已成功写入文件: ");
        r.append(path);
        r.append(" (");
        push_decimal(&mut r, content.len());
        r.append(" 字节)");
        r
    }

    /// Whether a write must be asked about: where its target lies outside
    /// the working directory (`inside` false), or where the session's level
    /// does not allow every operation.
    pub fn needs_prompt(state: &PermissionState, inside: bool) -> (r: bool)
        ensures
            r == (!inside || !allows_all(state.level)),
    {
        !inside || state.needs_prompt()
    }

    /// The step between a requested write and the file system.  A write
    /// inside the working directory (`inside`) under a level that allows
    /// every operation goes on with no question asked.  Any other write
    /// goes on only where `reply`, what was read at the prompt (none where
    /// nobody was asked, which refuses), grants it: a write outside the
    /// working directory is asked about whatever the level.  The level
    /// changes as the choice says.  `Ok` carries the grant the choice made.
    pub fn authorize(
        state: &mut PermissionState,
        path: &str,
        inside: bool,
        reply: Option<Result<char, std::io::Error>>,
    ) -> (r: Result<Option<Grant>, FsError>)
        ensures
            r is Ok ==> (inside && allows_all(old(state).level)) || (reply matches Some(Ok(c))
                && choice_outcome(old(state).level, c).1 is Some),
            inside && allows_all(old(state).level) ==> final(state).level == old(state).level && r
                == Ok::<Option<Grant>, FsError>(None),
            !(inside && allows_all(old(state).level)) ==> match reply {
                None => final(state).level == old(state).level && (r matches Err(FsError::Other(m))
                    && m@ == refusal_text("文件写入: "@ + path@)),
                Some(Ok(c)) => {
                    &&& final(state).level == choice_outcome(old(state).level, c).0
                    &&& match choice_outcome(old(state).level, c).1 {
                        Some(g) => r matches Ok(h) && h == Some(g),
                        None => r matches Err(FsError::Other(m)) && m@ == refusal_text(
                            "文件写入: "@ + path@,
                        ),
                    }
                },
                Some(Err(_)) => final(state).level == old(state).level && (r matches Err(
                    FsError::Io(_),
                )),
            },
    {
        if inside && !state.needs_prompt() {
            return Ok(None);
        }
        // with no reply read, the write is refused as for `n`
        let reply = match reply {
            Some(reply) => reply,
            None => Ok('n'),
        };
        match state.confirm_file_write(path, reply) {
            Ok(g) => Ok(Some(g)),
            Err(e) => Err(e),
        }
    }

    /// The error for a directory that could not be created: `无法创建目录 '`,
    /// the directory, `': ` and the I/O error's text, which comes from the
    /// operating system and is not stated.
    pub fn create_dir_failed(dir: &str, err: &std::io::Error) -> (r: FsError)
        ensures
            r matches FsError::Other(m) && exists|detail: Seq<char>| m@ == failure_text_of(
                "无法创建目录 '"@,
                dir@,
                detail,
            ),
    {
        FsError::Other(failure_text("无法创建目录 '", dir, err))
    }

    /// The error for a file that could not be written: `无法写入文件 '`, the
    /// path, `': ` and the I/O error's text, which comes from the operating
    /// system and is not stated.
    pub fn write_failed(path: &str, err: &std::io::Error) -> (r: FsError)
        ensures
            r matches FsError::Other(m) && exists|detail: Seq<char>| m@ == failure_text_of(
                "无法写入文件 '"@,
                path@,
                detail,
            ),
    {
        FsError::Other(failure_text("无法写入文件 '", path, err))
    }
}

/// With no limit given, the read tool lists up to 500 lines: a file of at
/// most 500 lines is listed whole, each line numbered, with no note; a
/// longer one shows its first 500 lines and a note with its total.
pub proof fn law_default_listing_limit(content: Seq<char>)
    ensures
        lines(content).len() <= 500 ==> file_listing(content, line_limit(None)) == join(
            numbered_lines(lines(content)),
            "\n"@,
        ),
        lines(content).len() > 500 ==> file_listing(content, line_limit(None)) == join(
            numbered_lines(lines(content).take(500)),
            "\n"@,
        ) + "\n\n... (已截断，共 "@ + decimal(lines(content).len()) + " 行，只显示前 "@ + decimal(500)
            + " 行)"@,
{
}

} // verus!
