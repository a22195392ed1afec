//! What the streamed answer of the model shows: each event of the stream
//! becomes one display action.  The stream is driven by the caller, which
//! keeps the final response and the token usage that the events carry.

use vstd::prelude::*;
use crate::text::{join, join_strings, owned, views};

verus! {

/// A part of a tool result.
#[derive(Debug, Clone, PartialEq, Eq)]
pub enum ToolResultPart {
    Text(String),
    Image,
}

/// An event of the model's answer stream.
#[derive(Debug, Clone, PartialEq, Eq)]
pub enum StreamEvent {
    /// A piece of answer text.
    AnswerText(String),
    /// A piece of streamed reasoning.
    ReasoningDelta(String),
    /// A complete reasoning block, as displayed.
    Reasoning(String),
    /// A tool call with its arguments as JSON.
    ToolCall { name: String, arguments: String },
    /// The name of a tool call that is being streamed.
    ToolCallName(String),
    /// A piece of the arguments of a tool call that is being streamed.
    ToolCallDelta(String),
    /// The result of a tool call.
    ToolResult(Vec<ToolResultPart>),
    /// A completed provider call, by its index.
    CompletionCall { call_index: usize },
    /// The agent's final response.
    FinalResponse,
    /// A stream error, by its text.
    Error(String),
    /// Any other event.
    Other,
}

/// What the display does for an event.
#[derive(Debug, Clone, PartialEq, Eq)]
pub enum DisplayAction {
    Answer(String),
    ReasoningDelta(String),
    Reasoning(String),
    ToolCall { name: String, arguments: String },
    ToolCallDelta(String),
    ToolResult { success: bool, summary: String },
    CompletionCall(u32),
    /// Keep the final response.
    KeepFinal,
    Error(String),
    Ignore,
}

/// The texts of the text parts of a tool result.
pub open spec fn tool_result_texts(parts: Seq<ToolResultPart>) -> Seq<Seq<char>>
    decreases parts.len(),
{
    if parts.len() == 0 {
        seq![]
    } else {
        let r = tool_result_texts(parts.drop_last());
        match parts.last() {
            ToolResultPart::Text(t) => r.push(t@),
            ToolResultPart::Image => r,
        }
    }
}

/// The summary shown of a tool result: its texts joined by newlines.
pub fn tool_result_summary(parts: &Vec<ToolResultPart>) -> (r: String)
    ensures
        r@ == join(tool_result_texts(parts@), "\n"@),
{
    let mut texts: Vec<String> = Vec::new();
    let mut i: usize = 0;
    while i < parts.len()
        invariant
            i <= parts@.len(),
            views(texts@) == tool_result_texts(parts@.take(i as int)),
        decreases parts@.len() - i,
    {
        assert(parts@.take(i + 1).drop_last() =~= parts@.take(i as int));
        match &parts[i] {
            ToolResultPart::Text(t) => {
                texts.push(t.clone());
                assert(views(texts@) =~= views(texts@.drop_last()).push(t@));
            },
            ToolResultPart::Image => {},
        }
        i = i + 1;
    }
    assert(parts@.take(parts@.len() as int) =~= parts@);
    join_strings(&texts, "\n")
}

/// The display action for a stream event.
pub fn stream_action(event: &StreamEvent) -> (r: DisplayAction)
    ensures
        match event {
            StreamEvent::AnswerText(t) => r matches DisplayAction::Answer(s) && s@ == t@,
            StreamEvent::ReasoningDelta(t) => r matches DisplayAction::ReasoningDelta(s) && s@
                == t@,
            StreamEvent::Reasoning(t) => r matches DisplayAction::Reasoning(s) && s@ == t@,
            StreamEvent::ToolCall { name, arguments } => r matches DisplayAction::ToolCall {
                name: n,
                arguments: a,
            } && n@ == name@ && a@ == arguments@,
            StreamEvent::ToolCallName(name) => r matches DisplayAction::ToolCallDelta(s) && s@
                == "[调用: "@ + name@ + "]"@,
            StreamEvent::ToolCallDelta(d) => r matches DisplayAction::ToolCallDelta(s) && s@
                == d@,
            StreamEvent::ToolResult(parts) => r matches DisplayAction::ToolResult {
                success,
                summary,
            } && success && summary@ == join(tool_result_texts(parts@), "\n"@),
            StreamEvent::CompletionCall { call_index } => r matches DisplayAction::CompletionCall(
                i,
            ) && i == *call_index as u32,
            StreamEvent::FinalResponse => r is KeepFinal,
            StreamEvent::Error(e) => r matches DisplayAction::Error(s) && s@ == "AI 响应流错误: "@
                + e@,
            StreamEvent::Other => r is Ignore,
        },
{
    match event {
        StreamEvent::AnswerText(t) => DisplayAction::Answer(t.clone()),
        StreamEvent::ReasoningDelta(t) => DisplayAction::ReasoningDelta(t.clone()),
        StreamEvent::Reasoning(t) => DisplayAction::Reasoning(t.clone()),
        StreamEvent::ToolCall { name, arguments } => DisplayAction::ToolCall {
            name: name.clone(),
            arguments: arguments.clone(),
        },
        StreamEvent::ToolCallName(name) => {
            let mut s = owned("[调用: ");
            s.append(name.as_str());
            s.append("]");
            DisplayAction::ToolCallDelta(s)
        },
        StreamEvent::ToolCallDelta(d) => DisplayAction::ToolCallDelta(d.clone()),
        StreamEvent::ToolResult(parts) => DisplayAction::ToolResult {
            success: true,
            summary: tool_result_summary(parts),
        },
        StreamEvent::CompletionCall { call_index } => DisplayAction::CompletionCall(
            *call_index as u32,
        ),
        StreamEvent::FinalResponse => DisplayAction::KeepFinal,
        StreamEvent::Error(e) => {
            let mut s = owned("AI 响应流错误: ");
            s.append(e.as_str());
            DisplayAction::Error(s)
        },
        StreamEvent::Other => DisplayAction::Ignore,
    }
}

} // verus!
