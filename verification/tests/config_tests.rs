use saad_agent::config::{
    get_api_key, get_effort_level, get_max_history_messages, get_max_tokens, get_max_turns,
    get_model_name, history_path, perm_config_path, EffortLevel, DEFAULT_MAX_TOKENS,
    MAX_HISTORY_MESSAGES,
};

#[test]
fn api_key_must_be_present_and_not_empty() {
    assert_eq!(get_api_key(Some("sk-1")), Ok("sk-1".to_string()));
    assert!(get_api_key(Some("")).is_err());
    let err = get_api_key(None).unwrap_err();
    assert!(err.starts_with("未设置 DEEPSEEK_API_KEY 环境变量！"));
}

#[test]
fn model_name_defaults() {
    assert_eq!(get_model_name(None), "deepseek-v4-flash");
    assert_eq!(get_model_name(Some("other")), "other");
}

#[test]
fn numeric_settings_parse_or_default() {
    assert_eq!(get_max_tokens(Some("1000")), 1000);
    assert_eq!(get_max_tokens(Some("lots")), DEFAULT_MAX_TOKENS);
    assert_eq!(get_max_tokens(None), 384000);
    assert_eq!(get_max_history_messages(None), MAX_HISTORY_MESSAGES);
    assert_eq!(get_max_history_messages(None), 20);
    assert_eq!(get_max_history_messages(Some("+5")), 5);
    assert_eq!(get_max_turns(None), 100);
    assert_eq!(get_max_turns(Some("-3")), 100);
}

#[test]
fn effort_level_from_setting() {
    assert_eq!(get_effort_level(None), EffortLevel::Normal);
    assert_eq!(get_effort_level(Some("CONCISE")), EffortLevel::Concise);
    assert_eq!(get_effort_level(Some("low")), EffortLevel::Concise);
    assert_eq!(get_effort_level(Some("High")), EffortLevel::Elaborate);
    assert_eq!(get_effort_level(Some("detailed")), EffortLevel::Elaborate);
    assert_eq!(get_effort_level(Some("normal")), EffortLevel::Normal);
    assert_eq!(get_effort_level(Some("whatever")), EffortLevel::Normal);
}

#[test]
fn effort_level_properties() {
    assert_eq!(EffortLevel::Concise.max_tokens(Some("9")), 4096);
    assert_eq!(EffortLevel::Normal.max_tokens(Some("9")), 9);
    assert_eq!(EffortLevel::Elaborate.max_tokens(None), 384000);
    assert_eq!(EffortLevel::Normal.preamble_instruction(), "");
    assert!(EffortLevel::Concise.preamble_instruction().starts_with("- 【重要】用最精炼"));
    assert!(EffortLevel::Elaborate.preamble_instruction().starts_with("- 【重要】请提供详细"));
    assert_eq!(EffortLevel::from_str("normal"), Some(EffortLevel::Normal));
    assert_eq!(EffortLevel::from_str("high"), Some(EffortLevel::Elaborate));
    assert_eq!(EffortLevel::from_str("fast"), None);
    assert_eq!(EffortLevel::Concise.display_name(), "concise");
}

#[test]
fn config_paths_are_inside_the_config_directory() {
    let sep = std::path::MAIN_SEPARATOR;
    assert_eq!(perm_config_path(), format!(".saad-agent{sep}permission.toml"));
    assert_eq!(history_path(), format!(".saad-agent{sep}history.json"));
    let joined = std::path::PathBuf::from(".saad-agent").join("permission.toml");
    assert_eq!(std::path::PathBuf::from(perm_config_path()), joined);
}
