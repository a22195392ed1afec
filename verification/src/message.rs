//! The conversation messages that the agent keeps, modelled by the
//! values the library reads: their roles, their text and the names of
//! the tools they call.  Everything else a message may carry (tool
//! results, images, ...) is an opaque part.

use vstd::prelude::*;
use crate::text::{chars_of, join, join_strings, owned, push_chars, str_eq, views};

verus! {

/// A part of a user message.
#[derive(Debug, Clone, PartialEq, Eq)]
pub enum UserContent {
    /// Text typed by the user.
    Text(String),
    /// A tool result, an image or another non-text part.
    Other,
}

/// A part of an assistant message.
#[derive(Debug, Clone, PartialEq, Eq)]
pub enum AssistantContent {
    /// Answer text.
    Text(String),
    /// Reasoning, as displayed.
    Reasoning(String),
    /// A tool call, by the name of the called function.
    ToolCall(String),
    /// Any other part.
    Other,
}

/// A conversation message.
#[derive(Debug, Clone, PartialEq, Eq)]
#[allow(inconsistent_fields)]
pub enum Message {
    System { content: String },
    User { content: Vec<UserContent> },
    Assistant { id: Option<String>, content: Vec<AssistantContent> },
}

/// The model of a user part.
pub enum UserPart {
    Text(Seq<char>),
    Other,
}

/// The model of an assistant part.
pub enum AssistantPart {
    Text(Seq<char>),
    Reasoning(Seq<char>),
    ToolCall(Seq<char>),
    Other,
}

/// The model of a message.
pub enum MessageView {
    System(Seq<char>),
    User(Seq<UserPart>),
    Assistant(Option<Seq<char>>, Seq<AssistantPart>),
}

impl View for UserContent {
    type V = UserPart;

    open spec fn view(&self) -> UserPart {
        match self {
            UserContent::Text(t) => UserPart::Text(t@),
            UserContent::Other => UserPart::Other,
        }
    }
}

impl View for AssistantContent {
    type V = AssistantPart;

    open spec fn view(&self) -> AssistantPart {
        match self {
            AssistantContent::Text(t) => AssistantPart::Text(t@),
            AssistantContent::Reasoning(t) => AssistantPart::Reasoning(t@),
            AssistantContent::ToolCall(t) => AssistantPart::ToolCall(t@),
            AssistantContent::Other => AssistantPart::Other,
        }
    }
}

/// The models of a sequence of user parts.
pub open spec fn user_parts(v: Seq<UserContent>) -> Seq<UserPart> {
    v.map_values(|c: UserContent| c@)
}

/// The models of a sequence of assistant parts.
pub open spec fn assistant_parts(v: Seq<AssistantContent>) -> Seq<AssistantPart> {
    v.map_values(|c: AssistantContent| c@)
}

/// The model of an optional string.
pub open spec fn opt_view(o: Option<String>) -> Option<Seq<char>> {
    match o {
        Some(s) => Some(s@),
        None => None,
    }
}

impl View for Message {
    type V = MessageView;

    open spec fn view(&self) -> MessageView {
        match self {
            Message::System { content } => MessageView::System(content@),
            Message::User { content } => MessageView::User(user_parts(content@)),
            Message::Assistant { id, content } => MessageView::Assistant(
                opt_view(*id),
                assistant_parts(content@),
            ),
        }
    }
}

/// The models of a sequence of messages.
pub open spec fn message_views(v: Seq<Message>) -> Seq<MessageView> {
    v.map_values(|m: Message| m@)
}

// ------------------------------------------------------------------
// The text of a message
// ------------------------------------------------------------------

/// The texts of the text parts, in order.
pub open spec fn user_texts(parts: Seq<UserPart>) -> Seq<Seq<char>>
    decreases parts.len(),
{
    if parts.len() == 0 {
        seq![]
    } else {
        let r = user_texts(parts.drop_last());
        match parts.last() {
            UserPart::Text(t) => r.push(t),
            UserPart::Other => r,
        }
    }
}

/// Which assistant parts a text extraction keeps, and as what.
#[derive(Clone, Copy, PartialEq, Eq, Structural)]
pub enum AssistantSelection {
    /// Answer text only.
    TextOnly,
    /// Answer text and reasoning.
    TextAndReasoning,
    /// Answer text, reasoning and `[ToolCall: name]` markers.
    All,
}

/// What an assistant part contributes under a selection.
pub open spec fn assistant_piece(p: AssistantPart, sel: AssistantSelection) -> Option<Seq<char>> {
    match p {
        AssistantPart::Text(t) => Some(t),
        AssistantPart::Reasoning(t) => match sel {
            AssistantSelection::TextOnly => None,
            _ => Some(t),
        },
        AssistantPart::ToolCall(name) => match sel {
            AssistantSelection::All => Some("[ToolCall: "@ + name + "]"@),
            _ => None,
        },
        AssistantPart::Other => None,
    }
}

/// The texts that the assistant parts contribute under a selection.
pub open spec fn assistant_texts(parts: Seq<AssistantPart>, sel: AssistantSelection) -> Seq<
    Seq<char>,
>
    decreases parts.len(),
{
    if parts.len() == 0 {
        seq![]
    } else {
        let r = assistant_texts(parts.drop_last(), sel);
        match assistant_piece(parts.last(), sel) {
            Some(t) => r.push(t),
            None => r,
        }
    }
}

/// The text of a message: the system text, the user's text parts, or the
/// assistant's text, reasoning and tool-call markers, joined by newlines.
pub open spec fn message_text_of(m: MessageView) -> Seq<char> {
    match m {
        MessageView::System(c) => c,
        MessageView::User(parts) => join(user_texts(parts), "\n"@),
        MessageView::Assistant(_, parts) => join(
            assistant_texts(parts, AssistantSelection::All),
            "\n"@,
        ),
    }
}

/// Collects the texts of the text parts of a user message.
pub fn collect_user_texts(content: &Vec<UserContent>) -> (r: Vec<String>)
    ensures
        views(r@) == user_texts(user_parts(content@)),
{
    let mut r: Vec<String> = Vec::new();
    let ghost parts = user_parts(content@);
    let mut i: usize = 0;
    while i < content.len()
        invariant
            i <= content@.len(),
            parts == user_parts(content@),
            views(r@) == user_texts(parts.take(i as int)),
        decreases content@.len() - i,
    {
        assert(parts.take(i + 1).drop_last() =~= parts.take(i as int));
        assert(parts.take(i + 1).last() == content@[i as int]@);
        match &content[i] {
            UserContent::Text(t) => {
                r.push(t.clone());
                assert(views(r@) =~= views(r@.drop_last()).push(t@));
            },
            UserContent::Other => {},
        }
        i = i + 1;
    }
    assert(parts.take(content@.len() as int) =~= parts);
    r
}

/// Collects the texts that the parts of an assistant message contribute
/// under a selection.
pub fn collect_assistant_texts(content: &Vec<AssistantContent>, sel: AssistantSelection) -> (r: Vec<
    String,
>)
    ensures
        views(r@) == assistant_texts(assistant_parts(content@), sel),
{
    let mut r: Vec<String> = Vec::new();
    let ghost parts = assistant_parts(content@);
    let mut i: usize = 0;
    while i < content.len()
        invariant
            i <= content@.len(),
            parts == assistant_parts(content@),
            views(r@) == assistant_texts(parts.take(i as int), sel),
        decreases content@.len() - i,
    {
        assert(parts.take(i + 1).drop_last() =~= parts.take(i as int));
        assert(parts.take(i + 1).last() == content@[i as int]@);
        let piece: Option<String> = match &content[i] {
            AssistantContent::Text(t) => Some(t.clone()),
            AssistantContent::Reasoning(t) => match sel {
                AssistantSelection::TextOnly => None,
                _ => Some(t.clone()),
            },
            AssistantContent::ToolCall(name) => match sel {
                AssistantSelection::All => {
                    let mut m = owned("[ToolCall: ");
                    m.append(name.as_str());
                    m.append("]");
                    Some(m)
                },
                _ => None,
            },
            AssistantContent::Other => None,
        };
        match piece {
            Some(t) => {
                r.push(t);
                assert(views(r@) =~= views(r@.drop_last()).push(r@.last()@));
            },
            None => {},
        }
        i = i + 1;
    }
    assert(parts.take(content@.len() as int) =~= parts);
    r
}


/// The text of a message: the system text, the user's text parts, or the
/// assistant's text, reasoning and `[ToolCall: name]` markers, joined by
/// newlines.
pub fn message_text(msg: &Message) -> (r: String)
    ensures
        r@ == message_text_of(msg@),
{
    match msg {
        Message::System { content } => content.clone(),
        Message::User { content } => join_strings(&collect_user_texts(content), "\n"),
        Message::Assistant { content, .. } => join_strings(
            &collect_assistant_texts(content, AssistantSelection::All),
            "\n",
        ),
    }
}

/// A preview of a message's text: the first `max_chars` characters and
/// `...` where the text is longer, else the whole text.
pub open spec fn preview_of(text: Seq<char>, max_chars: nat) -> Seq<char> {
    if text.len() > max_chars {
        text.take(max_chars as int) + "..."@
    } else {
        text
    }
}

/// The text of a message, cut to `max_chars` characters for a preview.
pub fn message_preview(msg: &Message, max_chars: usize) -> (r: String)
    ensures
        r@ == preview_of(message_text_of(msg@), max_chars as nat),
{
    let text = message_text(msg);
    let chars = chars_of(text.as_str());
    if chars.len() > max_chars {
        let mut r = String::new();
        push_chars(&mut r, &chars, 0, max_chars);
        r.append("...");
        assert(chars@.subrange(0, max_chars as int) =~= chars@.take(max_chars as int));
        r
    } else {
        text
    }
}

/// The name of a message's role.
pub open spec fn role_name(m: MessageView) -> Seq<char> {
    match m {
        MessageView::System(_) => "system"@,
        MessageView::User(_) => "user"@,
        MessageView::Assistant(_, _) => "assistant"@,
    }
}

/// The name of a message's role: `system`, `user` or `assistant`.
pub fn message_role_name(msg: &Message) -> (r: &'static str)
    ensures
        r@ == role_name(msg@),
{
    match msg {
        Message::System { .. } => "system",
        Message::User { .. } => "user",
        Message::Assistant { .. } => "assistant",
    }
}

// ------------------------------------------------------------------
// Copies and comparison
// ------------------------------------------------------------------

fn copy_user_content(c: &UserContent) -> (r: UserContent)
    ensures
        r@ == c@,
{
    match c {
        UserContent::Text(t) => UserContent::Text(t.clone()),
        UserContent::Other => UserContent::Other,
    }
}

fn copy_assistant_content(c: &AssistantContent) -> (r: AssistantContent)
    ensures
        r@ == c@,
{
    match c {
        AssistantContent::Text(t) => AssistantContent::Text(t.clone()),
        AssistantContent::Reasoning(t) => AssistantContent::Reasoning(t.clone()),
        AssistantContent::ToolCall(t) => AssistantContent::ToolCall(t.clone()),
        AssistantContent::Other => AssistantContent::Other,
    }
}

fn copy_opt_string(o: &Option<String>) -> (r: Option<String>)
    ensures
        opt_view(r) == opt_view(*o),
{
    match o {
        Some(s) => Some(s.clone()),
        None => None,
    }
}

/// A copy of a message, with the same model.
pub fn copy_message(m: &Message) -> (r: Message)
    ensures
        r@ == m@,
{
    match m {
        Message::System { content } => Message::System { content: content.clone() },
        Message::User { content } => {
            let mut v: Vec<UserContent> = Vec::new();
            let mut i: usize = 0;
            while i < content.len()
                invariant
                    i <= content@.len(),
                    v@.len() == i,
                    forall|j: int| 0 <= j < i ==> (#[trigger] v@[j])@ == content@[j]@,
                decreases content@.len() - i,
            {
                v.push(copy_user_content(&content[i]));
                i = i + 1;
            }
            assert(user_parts(v@) =~= user_parts(content@));
            Message::User { content: v }
        },
        Message::Assistant { id, content } => {
            let mut v: Vec<AssistantContent> = Vec::new();
            let mut i: usize = 0;
            while i < content.len()
                invariant
                    i <= content@.len(),
                    v@.len() == i,
                    forall|j: int| 0 <= j < i ==> (#[trigger] v@[j])@ == content@[j]@,
                decreases content@.len() - i,
            {
                v.push(copy_assistant_content(&content[i]));
                i = i + 1;
            }
            assert(assistant_parts(v@) =~= assistant_parts(content@));
            Message::Assistant { id: copy_opt_string(id), content: v }
        },
    }
}

/// Copies of a sequence of messages.
pub fn copy_messages(ms: &[Message]) -> (r: Vec<Message>)
    ensures
        message_views(r@) == message_views(ms@),
{
    let mut r: Vec<Message> = Vec::new();
    let mut i: usize = 0;
    while i < ms.len()
        invariant
            i <= ms@.len(),
            r@.len() == i,
            forall|j: int| 0 <= j < i ==> (#[trigger] r@[j])@ == ms@[j]@,
        decreases ms@.len() - i,
    {
        r.push(copy_message(&ms[i]));
        i = i + 1;
    }
    assert(message_views(r@) =~= message_views(ms@));
    r
}

fn user_content_eq(a: &UserContent, b: &UserContent) -> (r: bool)
    ensures
        r == (a@ == b@),
{
    match (a, b) {
        (UserContent::Text(x), UserContent::Text(y)) => str_eq(x.as_str(), y.as_str()),
        (UserContent::Other, UserContent::Other) => true,
        _ => false,
    }
}

fn assistant_content_eq(a: &AssistantContent, b: &AssistantContent) -> (r: bool)
    ensures
        r == (a@ == b@),
{
    match (a, b) {
        (AssistantContent::Text(x), AssistantContent::Text(y)) => str_eq(x.as_str(), y.as_str()),
        (AssistantContent::Reasoning(x), AssistantContent::Reasoning(y)) => str_eq(x.as_str(), y.as_str()),
        (AssistantContent::ToolCall(x), AssistantContent::ToolCall(y)) => str_eq(x.as_str(), y.as_str()),
        (AssistantContent::Other, AssistantContent::Other) => true,
        _ => false,
    }
}

/// Whether two messages have the same model.
pub fn message_eq(a: &Message, b: &Message) -> (r: bool)
    ensures
        r == (a@ == b@),
{
    match (a, b) {
        (Message::System { content: x }, Message::System { content: y }) => str_eq(
            x.as_str(),
            y.as_str(),
        ),
        (Message::User { content: x }, Message::User { content: y }) => {
            if x.len() != y.len() {
                assert(user_parts(x@).len() != user_parts(y@).len());
                return false;
            }
            let mut i: usize = 0;
            while i < x.len()
                invariant
                    i <= x@.len() == y@.len(),
                    a@ == MessageView::User(user_parts(x@)),
                    b@ == MessageView::User(user_parts(y@)),
                    forall|j: int| 0 <= j < i ==> x@[j]@ == y@[j]@,
                decreases x@.len() - i,
            {
                if !user_content_eq(&x[i], &y[i]) {
                    assert(user_parts(x@)[i as int] != user_parts(y@)[i as int]);
                    return false;
                }
                i = i + 1;
            }
            assert(user_parts(x@) =~= user_parts(y@));
            true
        },
        (Message::Assistant { id: ix, content: x }, Message::Assistant { id: iy, content: y }) => {
            let same_id = match (ix, iy) {
                (Some(p), Some(q)) => str_eq(p.as_str(), q.as_str()),
                (None, None) => true,
                _ => false,
            };
            if !same_id {
                return false;
            }
            if x.len() != y.len() {
                assert(assistant_parts(x@).len() != assistant_parts(y@).len());
                return false;
            }
            let mut i: usize = 0;
            while i < x.len()
                invariant
                    i <= x@.len() == y@.len(),
                    a@ == MessageView::Assistant(opt_view(*ix), assistant_parts(x@)),
                    b@ == MessageView::Assistant(opt_view(*iy), assistant_parts(y@)),
                    forall|j: int| 0 <= j < i ==> x@[j]@ == y@[j]@,
                decreases x@.len() - i,
            {
                if !assistant_content_eq(&x[i], &y[i]) {
                    assert(assistant_parts(x@)[i as int] != assistant_parts(y@)[i as int]);
                    return false;
                }
                i = i + 1;
            }
            assert(assistant_parts(x@) =~= assistant_parts(y@));
            true
        },
        _ => false,
    }
}

} // verus!
