use saad_agent::memory::{
    format_messages_for_summary, keep_only_text, truncate_message_texts, truncate_str,
    CompactionPlan, ConversationMemory, MAX_MESSAGE_CHARS,
};
use saad_agent::message::{
    message_preview, message_role_name, message_text, AssistantContent, Message, UserContent,
};

fn user(parts: Vec<UserContent>) -> Message {
    Message::User { content: parts }
}

fn user_text(t: &str) -> Message {
    user(vec![UserContent::Text(t.to_string())])
}

fn assistant(parts: Vec<AssistantContent>) -> Message {
    Message::Assistant { id: Some("id-1".to_string()), content: parts }
}

fn assistant_text(t: &str) -> Message {
    Message::Assistant { id: None, content: vec![AssistantContent::Text(t.to_string())] }
}

#[test]
fn keep_only_text_joins_text_parts() {
    let m = user(vec![
        UserContent::Text("a".into()),
        UserContent::Other,
        UserContent::Text("b".into()),
    ]);
    assert_eq!(keep_only_text(&m), Some(user_text("a\nb")));
    let a = assistant(vec![
        AssistantContent::Reasoning("think".into()),
        AssistantContent::Text("answer".into()),
        AssistantContent::ToolCall("ReadFile".into()),
    ]);
    assert_eq!(keep_only_text(&a), Some(assistant_text("answer")));
    assert_eq!(keep_only_text(&user(vec![UserContent::Other])), None);
    assert_eq!(keep_only_text(&assistant(vec![AssistantContent::ToolCall("x".into())])), None);
    let s = Message::System { content: "sys".into() };
    assert_eq!(keep_only_text(&s), Some(s.clone()));
}

#[test]
fn truncation_keeps_four_thousand_chars_and_notes_it() {
    let mut short = "短".repeat(MAX_MESSAGE_CHARS);
    truncate_str(&mut short, "文本");
    assert_eq!(short.chars().count(), 4000);
    let mut long = "字".repeat(4001);
    truncate_str(&mut long, "文本");
    let expected = format!("{}\n\n[文本过长，已截断，保留前 4000 字符]", "字".repeat(4000));
    assert_eq!(long, expected);
    let mut m = Message::System { content: "x".repeat(5000) };
    truncate_message_texts(&mut m);
    assert_eq!(
        m,
        Message::System {
            content: format!("{}\n\n[系统消息过长，已截断，保留前 4000 字符]", "x".repeat(4000))
        }
    );
    let mut a = assistant(vec![AssistantContent::Text("y".repeat(4001)), AssistantContent::Reasoning("r".repeat(4001))]);
    truncate_message_texts(&mut a);
    match a {
        Message::Assistant { content, .. } => {
            assert!(matches!(&content[0], AssistantContent::Text(t) if t.ends_with("[助手回复过长，已截断，保留前 4000 字符]")));
            assert_eq!(content[1], AssistantContent::Reasoning("r".repeat(4001)));
        }
        _ => panic!("role changed"),
    }
}

#[test]
fn extend_filters_truncates_and_deduplicates() {
    let mut mem = ConversationMemory::new(10);
    mem.extend(&[
        user_text("hello"),
        user_text("hello"),
        user(vec![UserContent::Other]),
        assistant(vec![AssistantContent::ToolCall("RunCmd".into())]),
        assistant(vec![AssistantContent::Text("hi".into())]),
        user_text("hello"),
    ]);
    assert_eq!(
        mem.messages(),
        &[user_text("hello"), assistant_text("hi"), user_text("hello")][..]
    );
    assert_eq!(mem.len(), 3);
    // a message equal to the last stored one is not stored again
    mem.extend(&[user_text("hello")]);
    assert_eq!(mem.len(), 3);
}

#[test]
fn extend_never_adds_equal_neighbours() {
    let mut mem = ConversationMemory::new(10);
    for _ in 0..3 {
        mem.extend(&[user_text("same"), assistant_text("same"), assistant_text("same")]);
    }
    let ms = mem.messages();
    for i in 1..ms.len() {
        assert_ne!(ms[i - 1], ms[i]);
    }
    assert_eq!(ms.len(), 6);
}

#[test]
fn build_context_puts_summary_first() {
    let mem = ConversationMemory::from_parts(vec![user_text("q")], Some("earlier".into()), 5);
    let ctx = mem.build_context();
    assert_eq!(
        ctx,
        vec![
            Message::System {
                content: "【以下为之前对话的摘要，请基于这些上下文继续对话】\nearlier".into()
            },
            user_text("q")
        ]
    );
    assert_eq!(mem.summary_message(), Some(ctx[0].clone()));
    let plain = ConversationMemory::from_parts(vec![user_text("q")], None, 5);
    assert_eq!(plain.build_context(), vec![user_text("q")]);
    assert_eq!(plain.summary_message(), None);
}

#[test]
fn format_for_summary_names_roles() {
    let ms = vec![
        Message::System { content: "s".into() },
        user_text("question"),
        assistant(vec![AssistantContent::Reasoning("why".into()), AssistantContent::Text("answer".into())]),
        user(vec![UserContent::Other]),
    ];
    assert_eq!(format_messages_for_summary(&ms), "User: question\n\nAssistant: why\nanswer");
}

#[test]
fn compaction_summarizes_the_older_half() {
    let msgs: Vec<Message> = (0..5).map(|i| user_text(&format!("m{i}"))).collect();
    let mut mem = ConversationMemory::from_parts(msgs.clone(), None, 4);
    match mem.plan_compaction() {
        CompactionPlan::Summarize { split_at, prompt } => {
            assert_eq!(split_at, 2);
            assert_eq!(
                prompt,
                "请用中文简洁地总结以下对话的关键信息和重要上下文。只输出摘要本身，不要添加额外说明。\n\nUser: m0\n\nUser: m1"
            );
            assert!(mem.finish_compaction(split_at, Some("first")));
        }
        CompactionPlan::NotNeeded => panic!("five messages exceed four"),
    }
    assert_eq!(mem.messages(), &msgs[2..]);
    assert_eq!(mem.summary(), Some("first"));
    assert_eq!(mem.plan_compaction(), CompactionPlan::NotNeeded);
    mem.extend(&[user_text("m5"), user_text("m6")]);
    if let CompactionPlan::Summarize { split_at, .. } = mem.plan_compaction() {
        assert!(mem.finish_compaction(split_at, Some("second")));
    }
    assert_eq!(mem.summary(), Some("first\n---\nsecond"));
    assert_eq!(mem.messages().last(), Some(&user_text("m6")));
}

#[test]
fn failed_compaction_loses_nothing() {
    let msgs: Vec<Message> = (0..6).map(|i| user_text(&format!("m{i}"))).collect();
    let mut mem = ConversationMemory::from_parts(msgs.clone(), Some("old".into()), 2);
    assert!(!mem.finish_compaction(3, None));
    assert_eq!(mem.messages(), &msgs[..]);
    assert_eq!(mem.summary(), Some("old"));
}

#[test]
fn empty_answer_keeps_summary_but_removes_older_messages() {
    let msgs: Vec<Message> = (0..4).map(|i| user_text(&format!("m{i}"))).collect();
    let mut mem = ConversationMemory::from_parts(msgs.clone(), Some("old".into()), 3);
    assert!(mem.finish_compaction(2, Some("")));
    assert_eq!(mem.messages(), &msgs[2..]);
    assert_eq!(mem.summary(), Some("old"));
}

#[test]
fn clear_and_limits() {
    let mut mem = ConversationMemory::from_parts(vec![user_text("q")], Some("s".into()), 5);
    assert!(!mem.is_empty());
    mem.clear();
    assert!(mem.is_empty());
    assert_eq!(mem.summary(), None);
    mem.set_max_messages(1);
    mem.extend(&[user_text("a"), user_text("b")]);
    assert!(matches!(mem.plan_compaction(), CompactionPlan::Summarize { split_at: 1, .. }));
    mem.messages_mut().clear();
    assert_eq!(mem.len(), 0);
}

#[test]
fn message_text_and_preview() {
    let a = assistant(vec![
        AssistantContent::Reasoning("why".into()),
        AssistantContent::ToolCall("RunCmd".into()),
        AssistantContent::Text("done".into()),
        AssistantContent::Other,
    ]);
    assert_eq!(message_text(&a), "why\n[ToolCall: RunCmd]\ndone");
    assert_eq!(message_role_name(&a), "assistant");
    assert_eq!(message_role_name(&user_text("x")), "user");
    assert_eq!(message_role_name(&Message::System { content: String::new() }), "system");
    assert_eq!(message_preview(&user_text("abcdef"), 3), "abc...");
    assert_eq!(message_preview(&user_text("abc"), 3), "abc");
    assert_eq!(message_preview(&user_text("中文字"), 2), "中文...");
}

#[test]
fn context_after_compaction_starts_with_summary() {
    let msgs: Vec<Message> = (0..3).map(|i| user_text(&format!("m{i}"))).collect();
    let mut mem = ConversationMemory::from_parts(msgs.clone(), Some("old".into()), 2);
    if let CompactionPlan::Summarize { split_at, .. } = mem.plan_compaction() {
        assert_eq!(split_at, 1);
        assert!(mem.finish_compaction(split_at, Some("new")));
    } else {
        panic!("three messages exceed two");
    }
    let mut expected = vec![Message::System {
        content: "【以下为之前对话的摘要，请基于这些上下文继续对话】\nold\n---\nnew".into(),
    }];
    expected.extend_from_slice(&msgs[1..]);
    assert_eq!(mem.build_context(), expected);
}
