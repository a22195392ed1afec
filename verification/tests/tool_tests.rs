use saad_agent::error::{io_message, AgentError};
use saad_agent::permission::{
    Grant, PermissionState, PERM_PERMANENT_ALLOW_ALL, PERM_PROMPT, PERM_SESSION_ALLOW_ALL,
};
use saad_agent::tool::cmd::{CmdError, RunCmd};
use saad_agent::tool::fs::{failure_message, path_within, FsError, ReadFile, WriteFile};

#[test]
fn listing_numbers_lines() {
    let out = ReadFile::format_listing("first\nsecond\n", None);
    assert_eq!(out, "     1 | first\n     2 | second");
    assert_eq!(ReadFile::format_listing("", None), "");
    assert_eq!(ReadFile::format_listing("a\r\nb", Some(5)), "     1 | a\n     2 | b");
}

#[test]
fn listing_truncates_with_a_note() {
    let out = ReadFile::format_listing("a\nb\nc\n", Some(2));
    assert_eq!(out, "     1 | a\n     2 | b\n\n... (已截断，共 3 行，只显示前 2 行)");
    let many: String = (1..=1000001).map(|i| format!("{i}\n")).take(3).collect();
    assert_eq!(ReadFile::format_listing(&many, Some(0)), "\n\n... (已截断，共 3 行，只显示前 0 行)");
    let wide: String = (1..=100_000).map(|_| "x\n").collect();
    let listing = ReadFile::format_listing(&wide, Some(100_000));
    assert!(listing.ends_with("\n100000 | x"));
}

#[test]
fn write_report_counts_bytes() {
    assert_eq!(WriteFile::success_message("a.txt", "中文"), "✅ 已成功写入文件: a.txt (6 字节)");
    assert_eq!(WriteFile::success_message("b", ""), "✅ 已成功写入文件: b (0 字节)");
}

#[test]
fn file_error_texts() {
    let e = std::io::Error::new(std::io::ErrorKind::NotFound, "gone");
    match ReadFile::read_failed("x.rs", &e) {
        FsError::Other(m) => assert_eq!(m, "无法读取文件 'x.rs': gone"),
        _ => panic!(),
    }
    match WriteFile::write_failed("y", &e) {
        FsError::Other(m) => assert_eq!(m, "无法写入文件 'y': gone"),
        _ => panic!(),
    }
    match WriteFile::create_dir_failed("d", &e) {
        FsError::Other(m) => assert_eq!(m, "无法创建目录 'd': gone"),
        _ => panic!(),
    }
    assert_eq!(FsError::Io(std::io::Error::new(std::io::ErrorKind::Other, "bad")).message(), "IO 错误: bad");
    assert_eq!(FsError::Other("plain".into()).message(), "plain");
    assert_eq!(AgentError::Other("o".into()).message(), "o");
    assert_eq!(AgentError::Io(std::io::Error::new(std::io::ErrorKind::Other, "z")).message(), "IO 错误: z");
}

#[test]
fn shell_invocation_per_platform() {
    let (p, a) = RunCmd::shell_invocation("ls -l", false);
    assert_eq!(p, "sh");
    assert_eq!(a, vec!["-c".to_string(), "ls -l".to_string()]);
    let (p, a) = RunCmd::shell_invocation("dir", true);
    assert_eq!(p, "powershell");
    assert_eq!(
        a,
        vec![
            "-NoProfile".to_string(),
            "-NonInteractive".to_string(),
            "-Command".to_string(),
            "[Console]::OutputEncoding = [System.Text.Encoding]::UTF8; dir".to_string()
        ]
    );
}

#[test]
fn command_results() {
    assert_eq!(RunCmd::command_result("ls", true, "exit status: 0", b"  out\n", b"").ok(), Some("out".to_string()));
    assert_eq!(RunCmd::command_result("ls", true, "exit status: 0", b" \n", b" warn ").ok(), Some("warn".to_string()));
    assert_eq!(RunCmd::command_result("ls", true, "exit status: 0", b"", b"").ok(), Some("命令已成功执行，无输出。".to_string()));
    assert_eq!(RunCmd::command_result("ls", true, "exit status: 0", b"o", b"e").ok(), Some("o".to_string()));
    match RunCmd::command_result("false", false, "exit status: 1", b"partial\n", b"boom\n") {
        Err(CmdError::StringError(m)) => assert_eq!(m, "命令 'false' 执行失败 (状态码 exit status: 1): boom"),
        _ => panic!(),
    }
    match RunCmd::command_result("f", false, "exit status: 2", b"only out", b"  ") {
        Err(CmdError::StringError(m)) => assert_eq!(m, "命令 'f' 执行失败 (状态码 exit status: 2): only out"),
        _ => panic!(),
    }
    // invalid UTF-8 is replaced, not dropped
    assert_eq!(RunCmd::command_result("x", true, "", &[0x61, 0xff], b"").ok(), Some("a\u{fffd}".to_string()));
}

#[test]
fn command_error_texts() {
    assert_eq!(CmdError::StringError("x".into()).message(), "命令执行错误: x");
    assert_eq!(CmdError::StdError(std::io::Error::new(std::io::ErrorKind::Other, "q")).message(), "IO 错误: q");
}

#[test]
fn error_texts_keep_the_detail() {
    assert_eq!(io_message("disk full"), "IO 错误: disk full");
    assert_eq!(io_message(""), "IO 错误: ");
    assert_eq!(failure_message("无法读取文件 '", "a/b", "denied"), "无法读取文件 'a/b': denied");
}

#[test]
fn command_runs_only_when_granted() {
    let mut s = PermissionState::new();
    match RunCmd::authorize(&mut s, "ls", Some(Ok('n')), false) {
        Err(CmdError::StringError(m)) => assert_eq!(m, "用户拒绝了操作: 命令执行: ls"),
        _ => panic!(),
    }
    assert_eq!(s.level, PERM_PROMPT);
    match RunCmd::authorize(&mut s, "ls", None, false) {
        Err(CmdError::StringError(m)) => assert_eq!(m, "用户拒绝了操作: 命令执行: ls"),
        _ => panic!(),
    }
    let io = std::io::Error::new(std::io::ErrorKind::UnexpectedEof, "eof");
    assert!(matches!(RunCmd::authorize(&mut s, "ls", Some(Err(io)), false), Err(CmdError::StdError(_))));
    match RunCmd::authorize(&mut s, "ls", Some(Ok('y')), false) {
        Ok((g, p, a)) => {
            assert_eq!(g, Some(Grant::Once));
            assert_eq!(p, "sh");
            assert_eq!(a, vec!["-c".to_string(), "ls".to_string()]);
        }
        _ => panic!(),
    }
    assert_eq!(s.level, PERM_PROMPT);
    match RunCmd::authorize(&mut s, "dir", Some(Ok('a')), true) {
        Ok((g, p, _)) => {
            assert_eq!(g, Some(Grant::Session));
            assert_eq!(p, "powershell");
        }
        _ => panic!(),
    }
    assert_eq!(s.level, PERM_SESSION_ALLOW_ALL);
    // once everything is allowed, no reply is needed and none is read
    match RunCmd::authorize(&mut s, "ls", None, false) {
        Ok((g, p, _)) => {
            assert_eq!(g, None);
            assert_eq!(p, "sh");
        }
        _ => panic!(),
    }
    assert_eq!(s.level, PERM_SESSION_ALLOW_ALL);
}

#[test]
fn write_goes_on_only_when_granted() {
    let mut s = PermissionState::new();
    match WriteFile::authorize(&mut s, "f.txt", true, Some(Ok('x'))) {
        Err(FsError::Other(m)) => assert_eq!(m, "用户拒绝了操作: 文件写入: f.txt"),
        _ => panic!(),
    }
    match WriteFile::authorize(&mut s, "f.txt", true, None) {
        Err(FsError::Other(m)) => assert_eq!(m, "用户拒绝了操作: 文件写入: f.txt"),
        _ => panic!(),
    }
    let io = std::io::Error::new(std::io::ErrorKind::UnexpectedEof, "eof");
    assert!(matches!(WriteFile::authorize(&mut s, "f.txt", true, Some(Err(io))), Err(FsError::Io(_))));
    assert!(matches!(WriteFile::authorize(&mut s, "f.txt", true, Some(Ok('y'))), Ok(Some(Grant::Once))));
    assert_eq!(s.level, PERM_PROMPT);
    assert!(matches!(WriteFile::authorize(&mut s, "f.txt", true, Some(Ok('p'))), Ok(Some(Grant::Permanent))));
    assert_eq!(s.level, PERM_PERMANENT_ALLOW_ALL);
    assert!(matches!(WriteFile::authorize(&mut s, "f.txt", true, Some(Ok('n'))), Ok(None)));
    assert_eq!(s.level, PERM_PERMANENT_ALLOW_ALL);
}

#[test]
fn outside_write_is_asked_whatever_the_level() {
    let mut s = PermissionState::new();
    assert!(WriteFile::needs_prompt(&s, true));
    assert!(matches!(WriteFile::authorize(&mut s, "/etc/x", false, Some(Ok('a'))), Ok(Some(Grant::Session))));
    assert_eq!(s.level, PERM_SESSION_ALLOW_ALL);
    assert!(!WriteFile::needs_prompt(&s, true));
    assert!(WriteFile::needs_prompt(&s, false));
    match WriteFile::authorize(&mut s, "/etc/x", false, None) {
        Err(FsError::Other(m)) => assert_eq!(m, "用户拒绝了操作: 文件写入: /etc/x"),
        _ => panic!(),
    }
    assert!(matches!(WriteFile::authorize(&mut s, "in.txt", true, None), Ok(None)));
    assert_eq!(s.level, PERM_SESSION_ALLOW_ALL);
}

#[test]
fn outside_read_is_asked() {
    let mut s = PermissionState::new();
    assert!(matches!(ReadFile::authorize(&mut s, "a.txt", true, None), Ok(None)));
    match ReadFile::authorize(&mut s, "/etc/passwd", false, None) {
        Err(FsError::Other(m)) => assert_eq!(m, "用户拒绝了操作: 文件读取: /etc/passwd"),
        _ => panic!(),
    }
    match ReadFile::authorize(&mut s, "/etc/passwd", false, Some(Ok('n'))) {
        Err(FsError::Other(m)) => assert_eq!(m, "用户拒绝了操作: 文件读取: /etc/passwd"),
        _ => panic!(),
    }
    let io = std::io::Error::new(std::io::ErrorKind::UnexpectedEof, "eof");
    assert!(matches!(ReadFile::authorize(&mut s, "/etc/passwd", false, Some(Err(io))), Err(FsError::Io(_))));
    assert!(matches!(ReadFile::authorize(&mut s, "/etc/passwd", false, Some(Ok('y'))), Ok(Some(Grant::Once))));
    assert!(matches!(ReadFile::authorize(&mut s, "/etc/passwd", false, Some(Ok('p'))), Ok(Some(Grant::Permanent))));
    assert_eq!(s.level, PERM_PERMANENT_ALLOW_ALL);
    // even under the permanent level, a read outside is asked about
    match ReadFile::authorize(&mut s, "/etc/passwd", false, None) {
        Err(FsError::Other(_)) => {}
        _ => panic!(),
    }
}

#[test]
fn paths_inside_the_working_directory() {
    let none: Vec<String> = vec![];
    assert!(path_within("/home/u/p", "/home/u/p", &none, '/'));
    assert!(path_within("/home/u/p", "/home/u/p/src/a.rs", &none, '/'));
    assert!(!path_within("/home/u/p", "/home/u/project", &none, '/'));
    assert!(!path_within("/home/u/p", "/home/u", &none, '/'));
    assert!(!path_within("/home/u/p", "/etc/passwd", &none, '/'));
    assert!(path_within("/", "/etc", &none, '/'));
    let fresh = vec!["new".to_string(), "f.txt".to_string()];
    assert!(path_within("/home/u/p", "/home/u/p/src", &fresh, '/'));
    let climbing = vec!["new".to_string(), "..".to_string(), "..".to_string(), "x".to_string()];
    assert!(!path_within("/home/u/p", "/home/u/p/src", &climbing, '/'));
    assert!(path_within("C:\\w", "C:\\w\\a.txt", &none, '\\'));
    assert!(!path_within("C:\\w", "C:\\wx", &none, '\\'));
}
