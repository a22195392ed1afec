use saad_agent::agent::{
    build_preamble, classify_input, powershell_supports_and_and, session_title, start_mode,
    InputKind, StartMode,
};
use saad_agent::config::EffortLevel;
use saad_agent::stream_handler::{stream_action, DisplayAction, StreamEvent, ToolResultPart};
use saad_agent::ui::{divider_width, help_lines, welcome_width};

#[test]
fn preamble_holds_cwd_notes_and_style() {
    let p = build_preamble("/work", false, EffortLevel::Elaborate);
    assert!(p.starts_with("你是一个专业的程序员助手"));
    assert!(p.contains("【当前工作目录】\n        /work\n\n        【可用工具】"));
    assert!(p.contains("- 所有相对路径都基于上述工作目录\n- 在执行命令或读写文件时，优先使用绝对路径"));
    assert!(!p.contains("PowerShell 5.1"));
    assert!(p.ends_with("【回答风格】\n        - 【重要】请提供详细的解释，展示思考过程，讨论替代方案和最佳实践。"));
    let w = build_preamble("C:\\", true, EffortLevel::Normal);
    assert!(w.contains("执行完后请及时删除以免混乱\n- 当前环境为 Windows PowerShell 5.1"));
    assert!(w.ends_with("【回答风格】\n        "));
}

#[test]
fn powershell_version_check() {
    assert!(powershell_supports_and_and(Some("True\r\n")));
    assert!(!powershell_supports_and_and(Some("False")));
    assert!(!powershell_supports_and_and(None));
}

#[test]
fn titles_and_input() {
    assert_eq!(session_title("short"), "short");
    assert_eq!(session_title(&"长".repeat(100)), "长".repeat(80));
    assert_eq!(classify_input("  \n"), (String::new(), InputKind::Blank));
    assert_eq!(classify_input(" /help\n"), ("/help".to_string(), InputKind::Command));
    assert_eq!(classify_input("读取 main.rs\n"), ("读取 main.rs".to_string(), InputKind::Prompt));
}

#[test]
fn stream_events_become_actions() {
    assert_eq!(stream_action(&StreamEvent::AnswerText("a".into())), DisplayAction::Answer("a".into()));
    assert_eq!(stream_action(&StreamEvent::ToolCallName("ReadFile".into())), DisplayAction::ToolCallDelta("[调用: ReadFile]".into()));
    assert_eq!(
        stream_action(&StreamEvent::ToolResult(vec![ToolResultPart::Text("x".into()), ToolResultPart::Image, ToolResultPart::Text("y".into())])),
        DisplayAction::ToolResult { success: true, summary: "x\ny".into() }
    );
    assert_eq!(stream_action(&StreamEvent::CompletionCall { call_index: 3 }), DisplayAction::CompletionCall(3));
    assert_eq!(stream_action(&StreamEvent::Error("timeout".into())), DisplayAction::Error("AI 响应流错误: timeout".into()));
    assert_eq!(stream_action(&StreamEvent::FinalResponse), DisplayAction::KeepFinal);
    assert_eq!(stream_action(&StreamEvent::Other), DisplayAction::Ignore);
    assert_eq!(
        stream_action(&StreamEvent::ToolCall { name: "RunCmd".into(), arguments: "{}".into() }),
        DisplayAction::ToolCall { name: "RunCmd".into(), arguments: "{}".into() }
    );
}

#[test]
fn layout_measures() {
    assert_eq!(divider_width(120), 80);
    assert_eq!(divider_width(40), 40);
    assert_eq!(welcome_width(10), 30);
    assert_eq!(welcome_width(45), 45);
    assert_eq!(welcome_width(200), 60);
    let lines = help_lines();
    assert_eq!(lines.len(), 7);
    assert_eq!(lines[0].0, "/help");
    assert_eq!(lines[0].1, "     ");
    assert_eq!(lines[4].1, "  ");
    assert_eq!(
        lines[6],
        ("/exit".to_string(), "     ".to_string(), "退出程序".to_string())
    );
    let shown = format!("  {} {} {}", lines[4].0, lines[4].1, lines[4].2);
    assert_eq!(shown, "  /history    显示当前对话历史统计");
}

#[test]
fn start_mode_precedence() {
    assert_eq!(start_mode(Some("id".into()), true, true), StartMode::Session("id".into()));
    assert_eq!(start_mode(None, true, false), StartMode::ContinueLast);
    assert_eq!(start_mode(None, false, true), StartMode::Resume);
    assert_eq!(start_mode(None, false, false), StartMode::New);
}
