use saad_agent::permission::{
    parse_choice, Grant, PermissionState, PERM_PERMANENT_ALLOW_ALL, PERM_PROMPT,
    PERM_SESSION_ALLOW_ALL,
};
use saad_agent::tool::cmd::CmdError;
use saad_agent::tool::fs::FsError;

#[test]
fn parse_choice_takes_first_lowercase_character() {
    assert_eq!(parse_choice("y\n"), 'y');
    assert_eq!(parse_choice("  Yes  "), 'y');
    assert_eq!(parse_choice("A"), 'a');
    assert_eq!(parse_choice("P\r\n"), 'p');
    assert_eq!(parse_choice("\n"), 'n');
    assert_eq!(parse_choice(""), 'n');
    assert_eq!(parse_choice("Ärger"), 'ä');
}

#[test]
fn new_state_prompts() {
    let s = PermissionState::new();
    assert_eq!(s.level, PERM_PROMPT);
    assert!(s.needs_prompt());
}

#[test]
fn choices_set_levels() {
    let mut s = PermissionState::new();
    assert_eq!(s.handle_choice('y', "op"), Ok(Grant::Once));
    assert!(s.needs_prompt());
    assert_eq!(s.handle_choice('a', "op"), Ok(Grant::Session));
    assert_eq!(s.level, PERM_SESSION_ALLOW_ALL);
    assert!(!s.needs_prompt());
    let mut p = PermissionState::new();
    assert_eq!(p.handle_choice('p', "op"), Ok(Grant::Permanent));
    assert_eq!(p.level, PERM_PERMANENT_ALLOW_ALL);
    assert!(!p.needs_prompt());
}

#[test]
fn refusal_names_the_operation_and_keeps_level() {
    let mut s = PermissionState::new();
    assert_eq!(s.handle_choice('n', "删除文件"), Err("用户拒绝了操作: 删除文件".to_string()));
    assert_eq!(s.handle_choice('x', "op"), Err("用户拒绝了操作: op".to_string()));
    assert_eq!(s.level, PERM_PROMPT);
}

#[test]
fn allowance_is_never_withdrawn() {
    for start in [PERM_SESSION_ALLOW_ALL, PERM_PERMANENT_ALLOW_ALL] {
        for c in ['y', 'a', 'p', 'n', 'q'] {
            let mut s = PermissionState { level: start };
            let _ = s.handle_choice(c, "op");
            assert!(!s.needs_prompt(), "start {start} choice {c}");
        }
    }
}

#[test]
fn permanent_permission_file() {
    let mut s = PermissionState::new();
    s.load_permanent_permission(Some("  allow_all\n"));
    assert_eq!(s.level, PERM_PERMANENT_ALLOW_ALL);
    let mut t = PermissionState::new();
    t.load_permanent_permission(Some("deny"));
    assert_eq!(t.level, PERM_PROMPT);
    t.load_permanent_permission(None);
    assert_eq!(t.level, PERM_PROMPT);
}

#[test]
fn confirm_execution_maps_errors() {
    let mut s = PermissionState::new();
    assert!(matches!(s.confirm_execution("ls", Ok('y')), Ok(Grant::Once)));
    match s.confirm_execution("rm -rf x", Ok('n')) {
        Err(CmdError::StringError(m)) => assert_eq!(m, "用户拒绝了操作: 命令执行: rm -rf x"),
        _ => panic!("expected a refusal"),
    }
    let e = std::io::Error::new(std::io::ErrorKind::Other, "closed");
    let r = s.confirm_execution("ls", Err(e));
    assert!(matches!(r, Err(CmdError::StdError(_))));
    assert!(r.unwrap_err().message().starts_with("IO 错误: "));
    assert!(matches!(s.confirm_execution("ls", Ok('a')), Ok(Grant::Session)));
    assert_eq!(s.level, PERM_SESSION_ALLOW_ALL);
}

#[test]
fn confirm_file_write_maps_errors() {
    let mut s = PermissionState::new();
    match s.confirm_file_write("a.txt", Ok('N')) {
        Err(FsError::Other(m)) => assert_eq!(m, "用户拒绝了操作: 文件写入: a.txt"),
        _ => panic!("expected a refusal"),
    }
    let e = std::io::Error::new(std::io::ErrorKind::Other, "closed");
    assert!(matches!(s.confirm_file_write("a.txt", Err(e)), Err(FsError::Io(_))));
    assert!(matches!(s.confirm_file_write("a.txt", Ok('p')), Ok(Grant::Permanent)));
}
