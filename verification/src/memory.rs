//! Conversation memory: the stored messages, the summary of older
//! messages, and the compaction that replaces the older half of the
//! messages with a summary written by the model.
//!
//! The model call itself is made by the caller: `plan_compaction` says
//! whether a summary is needed and gives the prompt for it, and
//! `finish_compaction` applies the model's answer, or records that the
//! call failed.

use vstd::prelude::*;
use crate::message::{
    assistant_parts, assistant_texts, collect_assistant_texts, collect_user_texts, copy_message,
    copy_messages, message_eq, message_views, opt_view, user_parts, user_texts, AssistantContent,
    AssistantPart, AssistantSelection, Message, MessageView, UserContent, UserPart,
};
use crate::text::{chars_of, decimal, join, join_strings, owned, push_chars, push_decimal, views};

verus! {

/// The longest text, in characters, that a stored message part keeps.
pub const MAX_MESSAGE_CHARS: usize = 4000;

/// `text` cut to its first `MAX_MESSAGE_CHARS` characters, with a note
/// naming `label`, where it is longer; else `text` itself.
pub open spec fn truncated(text: Seq<char>, label: Seq<char>) -> Seq<char> {
    if text.len() > MAX_MESSAGE_CHARS {
        text.take(MAX_MESSAGE_CHARS as int) + "\n\n["@ + label + "过长，已截断，保留前 "@ + decimal(
            MAX_MESSAGE_CHARS as nat,
        ) + " 字符]"@
    } else {
        text
    }
}

/// Cuts `s` to `MAX_MESSAGE_CHARS` characters, with a note, where it is longer.
pub fn truncate_str(s: &mut String, label: &str)
    ensures
        final(s)@ == truncated(old(s)@, label@),
{
    let chars = chars_of(s.as_str());
    if chars.len() > MAX_MESSAGE_CHARS {
        let mut r = String::new();
        push_chars(&mut r, &chars, 0, MAX_MESSAGE_CHARS);
        assert(chars@.subrange(0, MAX_MESSAGE_CHARS as int) =~= chars@.take(
            MAX_MESSAGE_CHARS as int,
        ));
        r.append("\n\n[");
        r.append(label);
        r.append("过长，已截断，保留前 ");
        push_decimal(&mut r, MAX_MESSAGE_CHARS);
        r.append(" 字符]");
        *s = r;
    }
}

// ------------------------------------------------------------------
// Filtering and truncation of incoming messages
// ------------------------------------------------------------------

/// A message reduced to its plain text: a user or assistant message
/// becomes one text part holding its text parts joined by newlines (the
/// assistant message loses its id), and is dropped where it has no text
/// part; a system message is kept as it is.
pub open spec fn keep_only_text_of(m: MessageView) -> Option<MessageView> {
    match m {
        MessageView::User(parts) => {
            let t = user_texts(parts);
            if t.len() == 0 {
                None
            } else {
                Some(MessageView::User(seq![UserPart::Text(join(t, "\n"@))]))
            }
        },
        MessageView::Assistant(_, parts) => {
            let t = assistant_texts(parts, AssistantSelection::TextOnly);
            if t.len() == 0 {
                None
            } else {
                Some(MessageView::Assistant(None, seq![AssistantPart::Text(join(t, "\n"@))]))
            }
        },
        MessageView::System(c) => Some(MessageView::System(c)),
    }
}

/// Reduces a message to its plain text, or `None` where it has none.
pub fn keep_only_text(msg: &Message) -> (r: Option<Message>)
    ensures
        match r {
            Some(m) => keep_only_text_of(msg@) == Some(m@),
            None => keep_only_text_of(msg@) is None,
        },
{
    match msg {
        Message::User { content } => {
            let texts = collect_user_texts(content);
            if texts.len() == 0 {
                None
            } else {
                let mut v: Vec<UserContent> = Vec::new();
                v.push(UserContent::Text(join_strings(&texts, "\n")));
                let m = Message::User { content: v };
                assert(user_parts(v@) =~= seq![UserPart::Text(join(views(texts@), "\n"@))]);
                Some(m)
            }
        },
        Message::Assistant { content, .. } => {
            let texts = collect_assistant_texts(content, AssistantSelection::TextOnly);
            if texts.len() == 0 {
                None
            } else {
                let mut v: Vec<AssistantContent> = Vec::new();
                v.push(AssistantContent::Text(join_strings(&texts, "\n")));
                let m = Message::Assistant { id: None, content: v };
                assert(assistant_parts(v@) =~= seq![
                    AssistantPart::Text(join(views(texts@), "\n"@)),
                ]);
                Some(m)
            }
        },
        Message::System { .. } => Some(copy_message(msg)),
    }
}

/// A user part with its text truncated.
pub open spec fn truncate_user_part(p: UserPart) -> UserPart {
    match p {
        UserPart::Text(t) => UserPart::Text(truncated(t, "文本"@)),
        UserPart::Other => UserPart::Other,
    }
}

/// An assistant part with its answer text truncated.
pub open spec fn truncate_assistant_part(p: AssistantPart) -> AssistantPart {
    match p {
        AssistantPart::Text(t) => AssistantPart::Text(truncated(t, "助手回复"@)),
        _ => p,
    }
}

/// A message with each of its texts truncated.
pub open spec fn truncate_message_of(m: MessageView) -> MessageView {
    match m {
        MessageView::System(c) => MessageView::System(truncated(c, "系统消息"@)),
        MessageView::User(parts) => MessageView::User(
            parts.map_values(|p: UserPart| truncate_user_part(p)),
        ),
        MessageView::Assistant(id, parts) => MessageView::Assistant(
            id,
            parts.map_values(|p: AssistantPart| truncate_assistant_part(p)),
        ),
    }
}

/// Truncates each text of a message in place.
pub fn truncate_message_texts(msg: &mut Message)
    ensures
        final(msg)@ == truncate_message_of(old(msg)@),
{
    let ghost m0 = msg@;
    match msg {
        Message::System { content } => {
            truncate_str(content, "系统消息");
        },
        Message::User { content } => {
            let mut v: Vec<UserContent> = Vec::new();
            let mut i: usize = 0;
            while i < content.len()
                invariant
                    i <= content@.len(),
                    v@.len() == i,
                    forall|j: int|
                        0 <= j < i ==> (#[trigger] v@[j])@ == truncate_user_part(content@[j]@),
                decreases content@.len() - i,
            {
                let part = match &content[i] {
                    UserContent::Text(t) => {
                        let mut t2 = t.clone();
                        truncate_str(&mut t2, "文本");
                        UserContent::Text(t2)
                    },
                    UserContent::Other => UserContent::Other,
                };
                v.push(part);
                i = i + 1;
            }
            assert(user_parts(v@) =~= user_parts(content@).map_values(
                |p: UserPart| truncate_user_part(p),
            ));
            *content = v;
        },
        Message::Assistant { content, .. } => {
            let mut v: Vec<AssistantContent> = Vec::new();
            let mut i: usize = 0;
            while i < content.len()
                invariant
                    i <= content@.len(),
                    v@.len() == i,
                    forall|j: int|
                        0 <= j < i ==> (#[trigger] v@[j])@ == truncate_assistant_part(
                            content@[j]@,
                        ),
                decreases content@.len() - i,
            {
                let part = match &content[i] {
                    AssistantContent::Text(t) => {
                        let mut t2 = t.clone();
                        truncate_str(&mut t2, "助手回复");
                        AssistantContent::Text(t2)
                    },
                    AssistantContent::Reasoning(t) => AssistantContent::Reasoning(t.clone()),
                    AssistantContent::ToolCall(t) => AssistantContent::ToolCall(t.clone()),
                    AssistantContent::Other => AssistantContent::Other,
                };
                v.push(part);
                i = i + 1;
            }
            assert(assistant_parts(v@) =~= assistant_parts(content@).map_values(
                |p: AssistantPart| truncate_assistant_part(p),
            ));
            *content = v;
        },
    }
}


// ------------------------------------------------------------------
// Text of older messages for the summary request
// ------------------------------------------------------------------

/// The line that a message contributes to the text sent for a summary:
/// `User: ` and its text parts, or `Assistant: ` and its text and
/// reasoning, where that text is not empty; system messages contribute none.
pub open spec fn summary_line(m: MessageView) -> Option<Seq<char>> {
    match m {
        MessageView::User(parts) => {
            let t = join(user_texts(parts), "\n"@);
            if t.len() == 0 {
                None
            } else {
                Some("User: "@ + t)
            }
        },
        MessageView::Assistant(_, parts) => {
            let t = join(assistant_texts(parts, AssistantSelection::TextAndReasoning), "\n"@);
            if t.len() == 0 {
                None
            } else {
                Some("Assistant: "@ + t)
            }
        },
        MessageView::System(_) => None,
    }
}

/// The lines that a sequence of messages contributes, in order.
pub open spec fn summary_lines(ms: Seq<MessageView>) -> Seq<Seq<char>>
    decreases ms.len(),
{
    if ms.len() == 0 {
        seq![]
    } else {
        let r = summary_lines(ms.drop_last());
        match summary_line(ms.last()) {
            Some(l) => r.push(l),
            None => r,
        }
    }
}

/// The text of a sequence of messages for a summary: their lines,
/// separated by blank lines.
pub open spec fn conversation_text(ms: Seq<MessageView>) -> Seq<char> {
    join(summary_lines(ms), "\n\n"@)
}

fn summary_line_of(m: &Message) -> (r: Option<String>)
    ensures
        match r {
            Some(l) => summary_line(m@) == Some(l@),
            None => summary_line(m@) is None,
        },
{
    match m {
        Message::User { content } => {
            let t = join_strings(&collect_user_texts(content), "\n");
            if t.as_str().is_empty() {
                None
            } else {
                let mut l = owned("User: ");
                l.append(t.as_str());
                Some(l)
            }
        },
        Message::Assistant { content, .. } => {
            let t = join_strings(
                &collect_assistant_texts(content, AssistantSelection::TextAndReasoning),
                "\n",
            );
            if t.as_str().is_empty() {
                None
            } else {
                let mut l = owned("Assistant: ");
                l.append(t.as_str());
                Some(l)
            }
        },
        Message::System { .. } => None,
    }
}

/// The text of `messages` for a summary request.
pub fn format_messages_for_summary(messages: &[Message]) -> (r: String)
    ensures
        r@ == conversation_text(message_views(messages@)),
{
    let ghost ms = message_views(messages@);
    let mut lines: Vec<String> = Vec::new();
    let mut i: usize = 0;
    while i < messages.len()
        invariant
            i <= messages@.len(),
            ms == message_views(messages@),
            views(lines@) == summary_lines(ms.take(i as int)),
        decreases messages@.len() - i,
    {
        assert(ms.take(i + 1).drop_last() =~= ms.take(i as int));
        assert(ms.take(i + 1).last() == messages@[i as int]@);
        match summary_line_of(&messages[i]) {
            Some(l) => {
                lines.push(l);
                assert(views(lines@) =~= views(lines@.drop_last()).push(lines@.last()@));
            },
            None => {},
        }
        i = i + 1;
    }
    assert(ms.take(messages@.len() as int) =~= ms);
    join_strings(&lines, "\n\n")
}

// ------------------------------------------------------------------
// ConversationMemory
// ------------------------------------------------------------------

/// The model of a conversation memory.
pub struct MemoryView {
    /// The stored messages, oldest first.
    pub messages: Seq<MessageView>,
    /// The number of messages beyond which a compaction summarizes.
    pub max_messages: nat,
    /// The summary of the messages that compactions removed.
    pub summary: Option<Seq<char>>,
}

/// The text that introduces the summary in the context sent to the model.
pub const SUMMARY_PREFIX: &'static str = "【以下为之前对话的摘要，请基于这些上下文继续对话】\n";

/// The request that precedes the older messages in a summary prompt.
pub const SUMMARY_REQUEST: &'static str = "请用中文简洁地总结以下对话的关键信息和重要上下文。只输出摘要本身，不要添加额外说明。\n\n";

/// The separator between two summaries that are merged.
pub const SUMMARY_SEPARATOR: &'static str = "\n---\n";

/// The system message that carries a summary, if there is one.
pub open spec fn summary_message_of(summary: Option<Seq<char>>) -> Option<MessageView> {
    match summary {
        Some(s) => Some(MessageView::System(SUMMARY_PREFIX@ + s)),
        None => None,
    }
}

/// The messages sent to the model: the summary message, if any, then the
/// stored messages.
pub open spec fn context_of(v: MemoryView) -> Seq<MessageView> {
    match summary_message_of(v.summary) {
        Some(m) => seq![m] + v.messages,
        None => v.messages,
    }
}

/// One incoming message stored: reduced to its text, truncated, and
/// appended unless it has no text or equals the last stored message.
pub open spec fn extend_step(stored: Seq<MessageView>, m: MessageView) -> Seq<MessageView> {
    match keep_only_text_of(m) {
        None => stored,
        Some(f) => {
            let t = truncate_message_of(f);
            if stored.len() > 0 && stored.last() == t {
                stored
            } else {
                stored.push(t)
            }
        },
    }
}

/// The stored messages after storing each of `incoming` in turn.
pub open spec fn extended(stored: Seq<MessageView>, incoming: Seq<MessageView>) -> Seq<MessageView>
    decreases incoming.len(),
{
    if incoming.len() == 0 {
        stored
    } else {
        extend_step(extended(stored, incoming.drop_last()), incoming.last())
    }
}

/// The summary after a compaction whose model answer is `text`: unchanged
/// where the text is empty, else the text appended to the earlier summary
/// after a separator, or the text alone where there was none.
pub open spec fn merged_summary(summary: Option<Seq<char>>, text: Seq<char>) -> Option<Seq<char>> {
    if text.len() == 0 {
        summary
    } else {
        match summary {
            Some(p) => Some(p + SUMMARY_SEPARATOR@ + text),
            None => Some(text),
        }
    }
}

/// The memory after a compaction that summarized the first `split_at`
/// messages into `text`.
pub open spec fn compacted(v: MemoryView, split_at: int, text: Seq<char>) -> MemoryView {
    MemoryView {
        messages: v.messages.skip(split_at),
        max_messages: v.max_messages,
        summary: merged_summary(v.summary, text),
    }
}

/// What a compaction needs.
#[derive(Debug, Clone, PartialEq, Eq)]
pub enum CompactionPlan {
    /// The memory holds no more messages than its limit.
    NotNeeded,
    /// The first `split_at` messages are to be summarized with `prompt`.
    Summarize { split_at: usize, prompt: String },
}

/// The messages of a conversation and the summary of its older part.
pub struct ConversationMemory {
    messages: Vec<Message>,
    max_messages: usize,
    summary: Option<String>,
}

impl View for ConversationMemory {
    type V = MemoryView;

    closed spec fn view(&self) -> MemoryView {
        MemoryView {
            messages: message_views(self.messages@),
            max_messages: self.max_messages as nat,
            summary: opt_view(self.summary),
        }
    }
}

impl ConversationMemory {
    /// An empty memory that compacts beyond `max_messages` messages.
    pub fn new(max_messages: usize) -> (r: Self)
        ensures
            r@ == (MemoryView {
                messages: Seq::empty(),
                max_messages: max_messages as nat,
                summary: None,
            }),
    {
        let r = ConversationMemory { messages: Vec::new(), max_messages, summary: None };
        assert(r@.messages =~= Seq::<MessageView>::empty());
        r
    }

    /// A memory made of loaded messages and summary.
    pub fn from_parts(messages: Vec<Message>, summary: Option<String>, max_messages: usize) -> (r:
        Self)
        ensures
            r@ == (MemoryView {
                messages: message_views(messages@),
                max_messages: max_messages as nat,
                summary: opt_view(summary),
            }),
    {
        ConversationMemory { messages, max_messages, summary }
    }

    /// The stored messages.
    pub fn messages(&self) -> (r: &[Message])
        ensures
            message_views(r@) == self@.messages,
    {
        self.messages.as_slice()
    }

    /// The stored messages, to be changed in place.
    pub fn messages_mut(&mut self) -> (r: &mut Vec<Message>)
        ensures
            message_views(r@) == old(self)@.messages,
            final(self)@ == (MemoryView {
                messages: message_views(final(r)@),
                max_messages: old(self)@.max_messages,
                summary: old(self)@.summary,
            }),
    {
        &mut self.messages
    }

    /// The number of stored messages.
    pub fn len(&self) -> (r: usize)
        ensures
            r == self@.messages.len(),
    {
        self.messages.len()
    }

    /// Whether no message is stored.
    pub fn is_empty(&self) -> (r: bool)
        ensures
            r == (self@.messages.len() == 0),
    {
        self.messages.len() == 0
    }

    /// The summary, if there is one.
    pub fn summary(&self) -> (r: Option<&str>)
        ensures
            match r {
                Some(s) => self@.summary == Some(s@),
                None => self@.summary is None,
            },
    {
        match &self.summary {
            Some(s) => Some(s.as_str()),
            None => None,
        }
    }

    /// Removes every message and the summary.
    pub fn clear(&mut self)
        ensures
            final(self)@ == (MemoryView {
                messages: Seq::empty(),
                max_messages: old(self)@.max_messages,
                summary: None,
            }),
    {
        self.messages = Vec::new();
        self.summary = None;
        assert(self@.messages =~= Seq::<MessageView>::empty());
    }

    /// Changes the compaction threshold.
    pub fn set_max_messages(&mut self, max: usize)
        ensures
            final(self)@ == (MemoryView { max_messages: max as nat, ..old(self)@ }),
    {
        self.max_messages = max;
    }

    /// Stores the plain text of `new_messages`: each is reduced to its
    /// text parts, dropped where it has none, truncated, and dropped where
    /// it equals the last stored message.
    pub fn extend(&mut self, new_messages: &[Message])
        ensures
            final(self)@ == (MemoryView {
                messages: extended(old(self)@.messages, message_views(new_messages@)),
                ..old(self)@
            }),
    {
        let ghost incoming = message_views(new_messages@);
        let ghost start = self@;
        let mut i: usize = 0;
        while i < new_messages.len()
            invariant
                i <= new_messages@.len(),
                incoming == message_views(new_messages@),
                self@ == (MemoryView {
                    messages: extended(start.messages, incoming.take(i as int)),
                    ..start
                }),
            decreases new_messages@.len() - i,
        {
            assert(incoming.take(i + 1).drop_last() =~= incoming.take(i as int));
            assert(incoming.take(i + 1).last() == new_messages@[i as int]@);
            let ghost before = self@.messages;
            let ghost m = new_messages@[i as int]@;
            assert(extended(start.messages, incoming.take(i + 1)) == extend_step(before, m));
            match keep_only_text(&new_messages[i]) {
                None => {},
                Some(f) => {
                    let mut f = f;
                    truncate_message_texts(&mut f);
                    let n = self.messages.len();
                    assert(n > 0 ==> message_views(self.messages@).last() == self.messages@[n
                        - 1]@);
                    let duplicate = n > 0 && message_eq(&self.messages[n - 1], &f);
                    assert(duplicate == (before.len() > 0 && before.last() == f@));
                    if !duplicate {
                        self.messages.push(f);
                        assert(message_views(self.messages@) =~= message_views(
                            self.messages@.drop_last(),
                        ).push(f@));
                    }
                    assert(self@.messages == extend_step(before, m));
                },
            }
            i = i + 1;
        }
        assert(incoming.take(new_messages@.len() as int) =~= incoming);
    }

    /// The messages to send to the model: the summary message, if any,
    /// then copies of the stored messages.
    pub fn build_context(&self) -> (r: Vec<Message>)
        ensures
            message_views(r@) == context_of(self@),
    {
        let copies = copy_messages(self.messages.as_slice());
        match self.summary_message() {
            Some(m) => {
                let mut ctx: Vec<Message> = Vec::new();
                ctx.push(m);
                let mut rest = copies;
                ctx.append(&mut rest);
                assert(message_views(ctx@) =~= seq![m@] + message_views(copies@));
                ctx
            },
            None => copies,
        }
    }

    /// The system message that carries the summary, if there is one.
    pub fn summary_message(&self) -> (r: Option<Message>)
        ensures
            match r {
                Some(m) => summary_message_of(self@.summary) == Some(m@),
                None => summary_message_of(self@.summary) is None,
            },
    {
        match &self.summary {
            Some(s) => {
                let mut content = owned(SUMMARY_PREFIX);
                content.append(s.as_str());
                Some(Message::System { content })
            },
            None => None,
        }
    }

    /// Whether a compaction is needed and, where it is, how many of the
    /// oldest messages are to be summarized and the prompt that asks for
    /// their summary.
    pub fn plan_compaction(&self) -> (p: CompactionPlan)
        ensures
            (p is NotNeeded) == (self@.messages.len() <= self@.max_messages),
            match p {
                CompactionPlan::Summarize { split_at, prompt } => split_at
                    == self@.messages.len() / 2 && prompt@ == SUMMARY_REQUEST@ + conversation_text(
                    self@.messages.take(split_at as int),
                ),
                CompactionPlan::NotNeeded => true,
            },
    {
        let n = self.messages.len();
        if n <= self.max_messages {
            return CompactionPlan::NotNeeded;
        }
        let split_at = n / 2;
        let mut older: Vec<Message> = Vec::new();
        let mut i: usize = 0;
        while i < split_at
            invariant
                i <= split_at <= self.messages@.len(),
                older@.len() == i,
                forall|j: int| 0 <= j < i ==> (#[trigger] older@[j])@ == self.messages@[j]@,
            decreases split_at - i,
        {
            older.push(copy_message(&self.messages[i]));
            i = i + 1;
        }
        assert(message_views(older@) =~= self@.messages.take(split_at as int));
        let mut prompt = owned(SUMMARY_REQUEST);
        let text = format_messages_for_summary(older.as_slice());
        prompt.append(text.as_str());
        CompactionPlan::Summarize { split_at, prompt }
    }

    /// Applies the outcome of a summary request for the first `split_at`
    /// messages.  With the model's answer `Some(text)` the summarized
    /// messages are removed and the text merged into the summary, and
    /// `true` is returned; where the request failed (`None`) nothing is
    /// removed and `false` is returned.
    pub fn finish_compaction(&mut self, split_at: usize, reply: Option<&str>) -> (done: bool)
        requires
            split_at <= old(self)@.messages.len(),
        ensures
            done == reply is Some,
            match reply {
                Some(text) => final(self)@ == compacted(old(self)@, split_at as int, text@),
                None => final(self)@ == old(self)@,
            },
    {
        match reply {
            None => false,
            Some(text) => {
                if !text.is_empty() {
                    let merged = match &self.summary {
                        Some(prev) => {
                            let mut m = prev.clone();
                            m.append(SUMMARY_SEPARATOR);
                            m.append(text);
                            m
                        },
                        None => owned(text),
                    };
                    self.summary = Some(merged);
                }
                let rest = self.messages.split_off(split_at);
                self.messages = rest;
                assert(message_views(self.messages@) =~= message_views(old(self).messages@).skip(
                    split_at as int,
                ));
                true
            },
        }
    }
}

// ------------------------------------------------------------------
// Laws
// ------------------------------------------------------------------

/// No two neighbouring messages are equal.
pub open spec fn no_adjacent_duplicates(s: Seq<MessageView>) -> bool {
    forall|i: int| 0 < i < s.len() ==> #[trigger] s[i - 1] != s[i]
}

/// A message that holds plain text only: a system message, or a user or
/// assistant message (without id) made of one text part.
pub open spec fn is_plain_text(m: MessageView) -> bool {
    match m {
        MessageView::System(_) => true,
        MessageView::User(parts) => parts.len() == 1 && parts[0] is Text,
        MessageView::Assistant(id, parts) => id is None && parts.len() == 1 && parts[0] is Text,
    }
}

/// Every message is plain text.
pub open spec fn all_plain_text(s: Seq<MessageView>) -> bool {
    forall|i: int| 0 <= i < s.len() ==> is_plain_text(#[trigger] s[i])
}

/// Storing messages only appends: what was stored stays, in order, in front.
pub proof fn law_extend_only_appends(stored: Seq<MessageView>, incoming: Seq<MessageView>)
    ensures
        stored.is_prefix_of(extended(stored, incoming)),
    decreases incoming.len(),
{
    if incoming.len() > 0 {
        law_extend_only_appends(stored, incoming.drop_last());
    }
}

/// Storing never places a message right after an equal one: where the
/// stored messages have no equal neighbours, they have none afterwards.
pub proof fn law_extend_no_adjacent_duplicates(stored: Seq<MessageView>, incoming: Seq<MessageView>)
    requires
        no_adjacent_duplicates(stored),
    ensures
        no_adjacent_duplicates(extended(stored, incoming)),
    decreases incoming.len(),
{
    if incoming.len() > 0 {
        law_extend_no_adjacent_duplicates(stored, incoming.drop_last());
        let prev = extended(stored, incoming.drop_last());
        let next = extended(stored, incoming);
        assert forall|i: int| 0 < i < next.len() implies #[trigger] next[i - 1] != next[i] by {
            if i < prev.len() {
                assert(next[i - 1] == prev[i - 1] && next[i] == prev[i]);
            }
        }
    }
}

/// Storing keeps only plain text: what it appends is always plain text.
pub proof fn law_extend_stores_plain_text(stored: Seq<MessageView>, incoming: Seq<MessageView>)
    requires
        all_plain_text(stored),
    ensures
        all_plain_text(extended(stored, incoming)),
    decreases incoming.len(),
{
    if incoming.len() > 0 {
        law_extend_stores_plain_text(stored, incoming.drop_last());
        let prev = extended(stored, incoming.drop_last());
        let next = extended(stored, incoming);
        match keep_only_text_of(incoming.last()) {
            None => {},
            Some(f) => {
                let t = truncate_message_of(f);
                assert(is_plain_text(t));
                assert forall|i: int| 0 <= i < next.len() implies is_plain_text(#[trigger] next[i]) by {
                    if i < prev.len() {
                        assert(next[i] == prev[i]);
                    }
                }
            },
        }
    }
}

/// A compaction of an over-full memory keeps the newer half of the
/// messages, the newest among them, and the earlier summary as the start
/// of the new one.
pub proof fn law_compaction_keeps_newer_half(v: MemoryView, text: Seq<char>)
    requires
        v.messages.len() > v.max_messages,
    ensures
        ({
            let split = (v.messages.len() / 2) as int;
            let after = compacted(v, split, text);
            &&& after.messages.len() == v.messages.len() - split
            &&& after.messages.len() >= 1
            &&& after.messages.last() == v.messages.last()
            &&& forall|i: int|
                0 <= i < after.messages.len() ==> #[trigger] after.messages[i] == v.messages[split
                    + i]
            &&& after.max_messages == v.max_messages
        }),
{
}

/// A summary only grows: after a compaction the earlier summary, if any,
/// is the start of the new one, and a non-empty answer is its end.
pub proof fn law_summary_only_grows(summary: Option<Seq<char>>, text: Seq<char>)
    ensures
        summary is Some ==> merged_summary(summary, text) is Some && summary->0.is_prefix_of(
            merged_summary(summary, text)->0,
        ),
        text.len() > 0 ==> merged_summary(summary, text) is Some && text.is_suffix_of(
            merged_summary(summary, text)->0,
        ),
{
    if summary is Some && text.len() > 0 {
        let m = summary->0 + SUMMARY_SEPARATOR@ + text;
        assert(m.subrange(0, summary->0.len() as int) =~= summary->0);
        assert(m.subrange(m.len() - text.len(), m.len() as int) =~= text);
    }
    if summary is Some && text.len() == 0 {
        assert(summary->0.subrange(0, summary->0.len() as int) =~= summary->0);
    }
    if summary is None && text.len() > 0 {
        assert(text.subrange(0, text.len() as int) =~= text);
    }
}

/// After a compaction with a non-empty answer, the context sent to the
/// model is the merged summary, as a system message, followed by the newer
/// half of the messages.
pub proof fn law_context_after_compaction(v: MemoryView, text: Seq<char>)
    requires
        v.messages.len() > v.max_messages,
        text.len() > 0,
    ensures
        ({
            let split = (v.messages.len() / 2) as int;
            let after = compacted(v, split, text);
            &&& after.summary is Some
            &&& context_of(after) == seq![MessageView::System(SUMMARY_PREFIX@ + after.summary->0)]
                + v.messages.skip(split)
        }),
{
}

/// In the text sent for a summary, a plain user message with text `t`
/// stands as `User: t` and a plain assistant answer `t` as
/// `Assistant: t`, whatever its id; an answer in two text parts stands as
/// both, on two lines, and reasoning before an answer is kept before it.
/// A message without text, and a system message, contribute no line.
pub proof fn law_summary_lines_keep_both_sides(
    id: Option<Seq<char>>,
    t: Seq<char>,
    u: Seq<char>,
)
    ensures
        t.len() > 0 ==> summary_line(MessageView::User(seq![UserPart::Text(t)])) == Some(
            "User: "@ + t,
        ),
        t.len() > 0 ==> summary_line(MessageView::Assistant(id, seq![AssistantPart::Text(t)]))
            == Some("Assistant: "@ + t),
        t.len() > 0 ==> summary_line(
            MessageView::Assistant(id, seq![AssistantPart::Text(t), AssistantPart::Text(u)]),
        ) == Some("Assistant: "@ + t + "\n"@ + u),
        t.len() > 0 ==> summary_line(
            MessageView::Assistant(id, seq![AssistantPart::Reasoning(u), AssistantPart::Text(t)]),
        ) == Some("Assistant: "@ + u + "\n"@ + t),
        t.len() == 0 ==> summary_line(MessageView::User(seq![UserPart::Text(t)])) is None,
        t.len() == 0 ==> summary_line(MessageView::Assistant(id, seq![AssistantPart::Text(t)]))
            is None,
        summary_line(MessageView::System(t)) is None,
{
    let sel = AssistantSelection::TextAndReasoning;
    let one_t = seq![AssistantPart::Text(t)];
    let one_u = seq![AssistantPart::Reasoning(u)];
    let tu = seq![AssistantPart::Text(t), AssistantPart::Text(u)];
    let ut = seq![AssistantPart::Reasoning(u), AssistantPart::Text(t)];
    assert(one_t.drop_last() =~= Seq::<AssistantPart>::empty());
    assert(one_u.drop_last() =~= Seq::<AssistantPart>::empty());
    assert(assistant_texts(Seq::<AssistantPart>::empty(), sel) =~= Seq::<Seq<char>>::empty());
    assert(one_t.last() == AssistantPart::Text(t));
    assert(one_u.last() == AssistantPart::Reasoning(u));
    assert(assistant_texts(one_t, sel) =~= seq![t]);
    assert(assistant_texts(one_u, sel) =~= seq![u]);
    assert(tu.drop_last() =~= one_t);
    assert(ut.drop_last() =~= one_u);
    assert(assistant_texts(tu, sel) =~= seq![t, u]);
    assert(assistant_texts(ut, sel) =~= seq![u, t]);
    assert(seq![UserPart::Text(t)].drop_last() =~= Seq::<UserPart>::empty());
    assert(user_texts(Seq::<UserPart>::empty()) =~= Seq::<Seq<char>>::empty());
    assert(seq![UserPart::Text(t)].last() == UserPart::Text(t));
    assert(user_texts(seq![UserPart::Text(t)]) =~= seq![t]);
    assert(join(seq![t], "\n"@) == t);
    assert(seq![t, u].drop_last() =~= seq![t]);
    assert(seq![u, t].drop_last() =~= seq![u]);
    assert(join(seq![t], "\n"@) == t);
    assert(join(seq![u], "\n"@) == u);
    assert(join(seq![t, u], "\n"@) == t + "\n"@ + u);
    assert(join(seq![u, t], "\n"@) == u + "\n"@ + t);
    assert((t + "\n"@ + u).len() > 0 <== t.len() > 0);
    assert((u + "\n"@ + t).len() > 0 <== t.len() > 0);
}

/// The text sent for a summary of one exchange, a question `q` and its
/// plain answer `a`, holds both: `User: q`, a blank line, `Assistant: a`.
pub proof fn law_summary_of_an_exchange(q: Seq<char>, a: Seq<char>)
    requires
        q.len() > 0,
        a.len() > 0,
    ensures
        conversation_text(
            seq![
                MessageView::User(seq![UserPart::Text(q)]),
                MessageView::Assistant(None, seq![AssistantPart::Text(a)]),
            ],
        ) == "User: "@ + q + "\n\n"@ + "Assistant: "@ + a,
{
    let u = MessageView::User(seq![UserPart::Text(q)]);
    let m = MessageView::Assistant(None, seq![AssistantPart::Text(a)]);
    law_summary_lines_keep_both_sides(None, q, a);
    law_summary_lines_keep_both_sides(None, a, q);
    assert(summary_line(u) == Some("User: "@ + q));
    assert(summary_line(m) == Some("Assistant: "@ + a));
    let one = seq![u];
    let ms = seq![u, m];
    assert(one.drop_last() =~= Seq::<MessageView>::empty());
    assert(one.last() == u);
    assert(summary_lines(Seq::<MessageView>::empty()) =~= Seq::<Seq<char>>::empty());
    assert(summary_lines(one) =~= seq!["User: "@ + q]);
    assert(ms.drop_last() =~= one);
    assert(ms.last() == m);
    assert(summary_lines(ms) =~= seq!["User: "@ + q, "Assistant: "@ + a]);
    let ls = seq!["User: "@ + q, "Assistant: "@ + a];
    assert(ls.drop_last() =~= seq!["User: "@ + q]);
    assert(join(seq!["User: "@ + q], "\n\n"@) == "User: "@ + q);
    assert(join(ls, "\n\n"@) == "User: "@ + q + "\n\n"@ + "Assistant: "@ + a);
}

/// The note that ends a text cut on storing, for a user text.
pub open spec fn user_text_note() -> Seq<char> {
    "\n\n[文本过长，已截断，保留前 4000 字符]"@
}

/// What storing keeps of a user's text `t`: all of it where it has at most
/// 4000 characters, else its first 4000 characters and the note.
pub open spec fn stored_user_text(t: Seq<char>) -> Seq<char> {
    if t.len() <= 4000 {
        t
    } else {
        t.take(4000) + user_text_note()
    }
}

proof fn lemma_truncated_user_text(t: Seq<char>)
    ensures
        truncated(t, "文本"@) == stored_user_text(t),
{
    reveal_with_fuel(decimal, 5);
    assert(decimal(4000) =~= "4000"@) by {
        reveal_strlit("4000");
        reveal_with_fuel(decimal, 5);
        assert(decimal(4) =~= seq!['4']);
        assert(decimal(40) =~= seq!['4', '0']);
        assert(decimal(400) =~= seq!['4', '0', '0']);
        assert(decimal(4000) =~= seq!['4', '0', '0', '0']);
    }
    reveal_strlit("\n\n[");
    reveal_strlit("文本");
    reveal_strlit("过长，已截断，保留前 ");
    reveal_strlit(" 字符]");
    reveal_strlit("\n\n[文本过长，已截断，保留前 4000 字符]");
    assert("\n\n["@ + "文本"@ + "过长，已截断，保留前 "@ + "4000"@ + " 字符]"@ =~= user_text_note());
}

/// Storing a user's message of one text `t` appends it with the text cut to
/// its first 4000 characters and the note where it is longer, the text
/// whole where it is not; only an equal last message stops the append.
pub proof fn law_extend_cuts_long_texts(stored: Seq<MessageView>, t: Seq<char>)
    ensures
        ({
            let kept = MessageView::User(seq![UserPart::Text(stored_user_text(t))]);
            let after = extended(stored, seq![MessageView::User(seq![UserPart::Text(t)])]);
            &&& (stored.len() == 0 || stored.last() != kept) ==> after == stored.push(kept)
            &&& (stored.len() > 0 && stored.last() == kept) ==> after == stored
        }),
{
    let m = MessageView::User(seq![UserPart::Text(t)]);
    let incoming = seq![m];
    assert(incoming.drop_last() =~= Seq::<MessageView>::empty());
    assert(incoming.last() == m);
    assert(extended(stored, Seq::<MessageView>::empty()) == stored);
    assert(seq![UserPart::Text(t)].drop_last() =~= Seq::<UserPart>::empty());
    assert(user_texts(Seq::<UserPart>::empty()) =~= Seq::<Seq<char>>::empty());
    assert(seq![UserPart::Text(t)].last() == UserPart::Text(t));
    assert(user_texts(seq![UserPart::Text(t)]) =~= seq![t]);
    assert(join(seq![t], "\n"@) == t);
    lemma_truncated_user_text(t);
    let f = MessageView::User(seq![UserPart::Text(t)]);
    assert(keep_only_text_of(m) == Some(f));
    assert(seq![UserPart::Text(t)].map_values(|p: UserPart| truncate_user_part(p)) =~= seq![
        UserPart::Text(stored_user_text(t)),
    ]);
    assert(truncate_message_of(f) == MessageView::User(seq![UserPart::Text(stored_user_text(t))]));
}

/// The longest text a stored message part may hold: 4000 characters of
/// its own and the longest note that a cut appends.
pub open spec fn stored_text_limit() -> nat {
    4000 + "\n\n[助手回复过长，已截断，保留前 4000 字符]"@.len()
}

/// Whether each text of a message (the system text, the user's text parts,
/// the assistant's answer parts) is within the stored limit.
pub open spec fn texts_within_limit(m: MessageView) -> bool {
    match m {
        MessageView::System(c) => c.len() <= stored_text_limit(),
        MessageView::User(parts) => forall|j: int|
            0 <= j < parts.len() ==> (#[trigger] parts[j] matches UserPart::Text(t) ==> t.len()
                <= stored_text_limit()),
        MessageView::Assistant(_, parts) => forall|j: int|
            0 <= j < parts.len() ==> (#[trigger] parts[j] matches AssistantPart::Text(t) ==> t.len()
                <= stored_text_limit()),
    }
}

proof fn lemma_truncated_within_limit(t: Seq<char>, label: Seq<char>)
    requires
        label == "文本"@ || label == "助手回复"@ || label == "系统消息"@,
    ensures
        truncated(t, label).len() <= stored_text_limit(),
{
    assert(decimal(4000) =~= "4000"@) by {
        reveal_strlit("4000");
        reveal_with_fuel(decimal, 5);
        assert(decimal(4) =~= seq!['4']);
        assert(decimal(40) =~= seq!['4', '0']);
        assert(decimal(400) =~= seq!['4', '0', '0']);
        assert(decimal(4000) =~= seq!['4', '0', '0', '0']);
    }
    reveal_strlit("\n\n[");
    reveal_strlit("文本");
    reveal_strlit("助手回复");
    reveal_strlit("系统消息");
    reveal_strlit("过长，已截断，保留前 ");
    reveal_strlit(" 字符]");
    reveal_strlit("\n\n[助手回复过长，已截断，保留前 4000 字符]");
    assert("\n\n["@.len() == 3);
    assert(label.len() <= 4);
    assert("过长，已截断，保留前 "@.len() == 11);
    assert(" 字符]"@.len() == 4);
    assert("\n\n[助手回复过长，已截断，保留前 4000 字符]"@.len() == 26);
    reveal_strlit("4000");
    assert(decimal(MAX_MESSAGE_CHARS as nat).len() == 4);
    if t.len() > MAX_MESSAGE_CHARS {
        assert(t.take(MAX_MESSAGE_CHARS as int).len() == 4000);
        assert(truncated(t, label).len() == 4000 + 3 + label.len() + 11 + 4 + 4);
    }
}

/// Storing keeps every text short: where the stored messages' texts are
/// within the limit (4000 characters of their own and the note that a cut
/// appends), they still are after any messages are stored.
pub proof fn law_extend_keeps_texts_short(stored: Seq<MessageView>, incoming: Seq<MessageView>)
    requires
        forall|i: int| 0 <= i < stored.len() ==> texts_within_limit(#[trigger] stored[i]),
    ensures
        ({
            let after = extended(stored, incoming);
            forall|i: int| 0 <= i < after.len() ==> texts_within_limit(#[trigger] after[i])
        }),
    decreases incoming.len(),
{
    if incoming.len() > 0 {
        law_extend_keeps_texts_short(stored, incoming.drop_last());
        let prev = extended(stored, incoming.drop_last());
        let next = extended(stored, incoming);
        match keep_only_text_of(incoming.last()) {
            None => {},
            Some(f) => {
                let t = truncate_message_of(f);
                match f {
                    MessageView::System(c) => {
                        lemma_truncated_within_limit(c, "系统消息"@);
                    },
                    MessageView::User(parts) => {
                        let mapped = parts.map_values(|p: UserPart| truncate_user_part(p));
                        assert(t == MessageView::User(mapped));
                        assert forall|j: int| 0 <= j < mapped.len() implies (#[trigger] mapped[j] matches UserPart::Text(x) ==> x.len() <= stored_text_limit()) by {
                            if let UserPart::Text(x) = parts[j] {
                                lemma_truncated_within_limit(x, "文本"@);
                            }
                        }
                    },
                    MessageView::Assistant(id, parts) => {
                        let mapped = parts.map_values(|p: AssistantPart| truncate_assistant_part(p));
                        assert(t == MessageView::Assistant(id, mapped));
                        assert forall|j: int| 0 <= j < mapped.len() implies (#[trigger] mapped[j] matches AssistantPart::Text(x) ==> x.len() <= stored_text_limit()) by {
                            if let AssistantPart::Text(x) = parts[j] {
                                lemma_truncated_within_limit(x, "助手回复"@);
                            }
                        }
                    },
                }
                assert(texts_within_limit(t));
                assert forall|i: int| 0 <= i < next.len() implies texts_within_limit(#[trigger] next[i]) by {
                    if i < prev.len() {
                        assert(next[i] == prev[i]);
                    }
                }
            },
        }
    }
}

} // verus!
