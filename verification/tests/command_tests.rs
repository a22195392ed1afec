use saad_agent::command::{
    handle_effort, history_window_start, parse_command, CommandResult, EffortDecision, SlashCommand,
};
use saad_agent::config::EffortLevel;

#[test]
fn commands_are_case_insensitive() {
    assert_eq!(parse_command("/exit").0, SlashCommand::Exit);
    assert_eq!(parse_command("/QUIT").0, SlashCommand::Exit);
    assert_eq!(parse_command("/Help").0, SlashCommand::Help);
    assert_eq!(parse_command("/clear").0, SlashCommand::Clear);
    assert_eq!(parse_command("/save").0, SlashCommand::Save);
    assert_eq!(parse_command("/load").0, SlashCommand::Load);
    assert_eq!(parse_command("/history").0, SlashCommand::History);
    assert_eq!(parse_command("/effort high").0, SlashCommand::Effort);
    assert_eq!(parse_command("/effortless").0, SlashCommand::Effort);
    assert_eq!(parse_command("/help me").0, SlashCommand::Unknown);
    assert_eq!(parse_command("/nope").0, SlashCommand::Unknown);
    assert_eq!(parse_command("/EFFORT Concise").1, "/effort concise");
}

#[test]
fn effort_decisions() {
    assert_eq!(handle_effort("/effort", EffortLevel::Normal), EffortDecision::ShowCurrent(EffortLevel::Normal));
    assert_eq!(handle_effort("/effort   ", EffortLevel::Concise), EffortDecision::ShowCurrent(EffortLevel::Concise));
    assert_eq!(handle_effort("/effort concise", EffortLevel::Concise), EffortDecision::AlreadySet(EffortLevel::Concise));
    assert_eq!(handle_effort("/effort elaborate", EffortLevel::Normal), EffortDecision::Switch(EffortLevel::Elaborate));
    assert_eq!(handle_effort("/effort LOW", EffortLevel::Normal), EffortDecision::Switch(EffortLevel::Concise));
    assert_eq!(handle_effort("/effort max", EffortLevel::Normal), EffortDecision::Invalid("max".to_string()));
    assert_eq!(handle_effort("no prefix", EffortLevel::Normal), EffortDecision::ShowCurrent(EffortLevel::Normal));
}

#[test]
fn effort_decisions_map_to_loop_results() {
    assert_eq!(EffortDecision::Switch(EffortLevel::Concise).command_result(), CommandResult::RebuildAgent);
    assert_eq!(EffortDecision::AlreadySet(EffortLevel::Concise).command_result(), CommandResult::Continue);
    assert_eq!(EffortDecision::Invalid("x".into()).command_result(), CommandResult::Continue);
    assert_eq!(EffortDecision::ShowCurrent(EffortLevel::Normal).command_result(), CommandResult::Continue);
}

#[test]
fn history_shows_the_last_five() {
    assert_eq!(history_window_start(0), 0);
    assert_eq!(history_window_start(5), 0);
    assert_eq!(history_window_start(9), 4);
}
