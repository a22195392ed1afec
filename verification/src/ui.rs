//! The measures of the terminal layout: how wide the divider and the
//! welcome box are, and the command list of the help screen.

use vstd::prelude::*;
use crate::text::owned;

verus! {

/// The widest divider.
pub const MAX_DIVIDER_WIDTH: usize = 80;

/// The narrowest welcome box.
pub const MIN_WELCOME_WIDTH: usize = 30;

/// The widest welcome box.
pub const MAX_WELCOME_WIDTH: usize = 60;

/// The width of the divider: the terminal's, at most 80 columns.
pub fn divider_width(term_width: usize) -> (r: usize)
    ensures
        r == (if term_width < MAX_DIVIDER_WIDTH {
            term_width
        } else {
            MAX_DIVIDER_WIDTH
        }),
{
    if term_width < MAX_DIVIDER_WIDTH {
        term_width
    } else {
        MAX_DIVIDER_WIDTH
    }
}

/// The width of the welcome box: the terminal's, between 30 and 60 columns.
pub fn welcome_width(term_width: usize) -> (r: usize)
    ensures
        r == (if term_width < MIN_WELCOME_WIDTH {
            MIN_WELCOME_WIDTH
        } else if term_width > MAX_WELCOME_WIDTH {
            MAX_WELCOME_WIDTH
        } else {
            term_width
        }),
        MIN_WELCOME_WIDTH <= r <= MAX_WELCOME_WIDTH,
{
    if term_width < MIN_WELCOME_WIDTH {
        MIN_WELCOME_WIDTH
    } else if term_width > MAX_WELCOME_WIDTH {
        MAX_WELCOME_WIDTH
    } else {
        term_width
    }
}

/// The commands of the help screen, each with its description.
pub open spec fn help_commands() -> Seq<(Seq<char>, Seq<char>)> {
    seq![
        ("/help"@, "显示此帮助信息"@),
        ("/clear"@, "清空对话历史"@),
        ("/save"@, "保存对话历史到磁盘"@),
        ("/load"@, "从磁盘加载对话历史"@),
        ("/history"@, "显示当前对话历史统计"@),
        ("/effort"@, "切换 Agent 详细程度 (concise | normal | elaborate)"@),
        ("/exit"@, "退出程序"@),
    ]
}

/// The commands of the help screen, each with its description.
pub fn help_entries() -> (r: Vec<(&'static str, &'static str)>)
    ensures
        r@.len() == help_commands().len(),
        forall|i: int|
            0 <= i < r@.len() ==> (#[trigger] r@[i]).0@ == help_commands()[i].0 && r@[i].1@
                == help_commands()[i].1,
{
    let mut r: Vec<(&'static str, &'static str)> = Vec::new();
    r.push(("/help", "显示此帮助信息"));
    r.push(("/clear", "清空对话历史"));
    r.push(("/save", "保存对话历史到磁盘"));
    r.push(("/load", "从磁盘加载对话历史"));
    r.push(("/history", "显示当前对话历史统计"));
    r.push(("/effort", "切换 Agent 详细程度 (concise | normal | elaborate)"));
    r.push(("/exit", "退出程序"));
    r
}

/// The spaces that stand between a command and its description, besides
/// one space on each side: two more than the longest command is longer
/// than `cmd`.
pub open spec fn command_gap(cmd: Seq<char>, longest: nat) -> Seq<char> {
    Seq::new((longest - cmd.len() + 2) as nat, |j: int| ' ')
}

/// The lines of the help screen's command list, each printed as two
/// spaces, the command, a space, the gap, a space and the description;
/// `r[i]` is `(command, gap, description)`, the gap holding two spaces
/// more than the longest command is longer than this one.
pub fn help_lines() -> (r: Vec<(String, String, String)>)
    ensures
        r@.len() == help_commands().len(),
        forall|i: int|
            0 <= i < r@.len() ==> {
                &&& (#[trigger] r@[i]).0@ == help_commands()[i].0
                &&& r@[i].1@ == command_gap(help_commands()[i].0, max_command_width(help_commands()))
                &&& r@[i].2@ == help_commands()[i].1
            },
{
    let entries = help_entries();
    let mut width: usize = 0;
    let mut i: usize = 0;
    while i < entries.len()
        invariant
            i <= entries@.len() == help_commands().len(),
            forall|j: int|
                0 <= j < entries@.len() ==> (#[trigger] entries@[j]).0@ == help_commands()[j].0
                    && entries@[j].1@ == help_commands()[j].1,
            width == max_command_width(help_commands().take(i as int)),
            width <= 100,
        decreases entries@.len() - i,
    {
        assert(help_commands().take(i + 1).drop_last() =~= help_commands().take(i as int));
        proof {
            reveal_strlit("/help");
            reveal_strlit("/clear");
            reveal_strlit("/save");
            reveal_strlit("/load");
            reveal_strlit("/history");
            reveal_strlit("/effort");
            reveal_strlit("/exit");
        }
        let n = entries[i].0.unicode_len();
        if n > width {
            width = n;
        }
        i = i + 1;
    }
    assert(help_commands().take(help_commands().len() as int) =~= help_commands());
    let mut r: Vec<(String, String, String)> = Vec::new();
    let mut k: usize = 0;
    while k < entries.len()
        invariant
            k <= entries@.len() == help_commands().len(),
            forall|j: int|
                0 <= j < entries@.len() ==> (#[trigger] entries@[j]).0@ == help_commands()[j].0
                    && entries@[j].1@ == help_commands()[j].1,
            width == max_command_width(help_commands()),
            width <= 100,
            r@.len() == k,
            forall|j: int|
                0 <= j < k ==> {
                    &&& (#[trigger] r@[j]).0@ == help_commands()[j].0
                    &&& r@[j].1@ == command_gap(help_commands()[j].0, width as nat)
                    &&& r@[j].2@ == help_commands()[j].1
                },
        decreases entries@.len() - k,
    {
        proof {
            lemma_command_width_bound(help_commands(), k as int);
        }
        let n = entries[k].0.unicode_len();
        let mut gap = String::new();
        let mut pad: usize = 0;
        while pad < width - n + 2
            invariant
                n <= width <= 100,
                pad <= width - n + 2,
                gap@ == Seq::new(pad as nat, |j: int| ' '),
            decreases width - n + 2 - pad,
        {
            gap.push(' ');
            assert(Seq::new((pad + 1) as nat, |j: int| ' ') =~= Seq::new(pad as nat, |j: int| ' ').push(' '));
            pad = pad + 1;
        }
        r.push((owned(entries[k].0), gap, owned(entries[k].1)));
        k = k + 1;
    }
    r
}

/// The width of the longest command.
pub open spec fn max_command_width(cmds: Seq<(Seq<char>, Seq<char>)>) -> nat
    decreases cmds.len(),
{
    if cmds.len() == 0 {
        0
    } else {
        let w = max_command_width(cmds.drop_last());
        if cmds.last().0.len() > w {
            cmds.last().0.len()
        } else {
            w
        }
    }
}

proof fn lemma_command_width_bound(cmds: Seq<(Seq<char>, Seq<char>)>, k: int)
    requires
        0 <= k < cmds.len(),
    ensures
        cmds[k].0.len() <= max_command_width(cmds),
    decreases cmds.len(),
{
    if k < cmds.len() - 1 {
        lemma_command_width_bound(cmds.drop_last(), k);
    }
}

} // verus!
