use quick_launch::launch::{
    build_apple_statement, build_keep_open_script, launch_outcome, macos_command,
    push_apple_escaped, resolve_terminal, unix_command, windows_command, LaunchCommand,
    LaunchError, OsFailure, TerminalLauncher, DEFAULT_TERMINAL, TERMINAL_VARIABLE,
};
use quick_launch::quote::{push_shell_quoted, shell_quote};

fn strings(items: &[&str]) -> Vec<String> {
    items.iter().map(|s| s.to_string()).collect()
}

/// Reads one shell word made of single-quoted stretches and backslash
/// escapes, the way `sh` does.
fn read_shell_word(text: &str) -> Option<String> {
    let mut out = String::new();
    let mut in_quotes = false;
    let mut chars = text.chars();
    while let Some(c) = chars.next() {
        if in_quotes {
            if c == '\'' {
                in_quotes = false;
            } else {
                out.push(c);
            }
        } else if c == '\'' {
            in_quotes = true;
        } else if c == '\\' {
            out.push(chars.next()?);
        } else {
            return None;
        }
    }
    if in_quotes {
        None
    } else {
        Some(out)
    }
}

/// Reads the inside of an AppleScript string literal.
fn read_apple_literal(text: &str) -> Option<String> {
    let mut out = String::new();
    let mut chars = text.chars();
    while let Some(c) = chars.next() {
        if c == '\\' {
            match chars.next() {
                Some(n) if n == '"' || n == '\\' => out.push(n),
                _ => return None,
            }
        } else if c == '"' {
            return None;
        } else {
            out.push(c);
        }
    }
    Some(out)
}

#[test]
fn quote_of_plain_text() {
    assert_eq!(shell_quote("abc"), "'abc'");
}

#[test]
fn quote_of_the_empty_text() {
    assert_eq!(shell_quote(""), "''");
}

#[test]
fn quote_keeps_blanks_inside_the_quotes() {
    assert_eq!(shell_quote("/tmp/My Script.sh"), "'/tmp/My Script.sh'");
}

#[test]
fn quote_escapes_a_single_quote() {
    assert_eq!(shell_quote("it's"), r"'it'\''s'");
    assert_eq!(shell_quote("'"), r"''\'''");
    assert_eq!(shell_quote("''"), r"''\'''\'''");
}

#[test]
fn quote_leaves_other_special_characters_alone() {
    assert_eq!(shell_quote(r#"a"b$c`d\e;f"#), r#"'a"b$c`d\e;f'"#);
}

#[test]
fn quote_handles_text_beyond_ascii() {
    assert_eq!(shell_quote("/tmp/señor's café"), r"'/tmp/señor'\''s café'");
}

#[test]
fn push_shell_quoted_appends() {
    let mut out = String::from("run ");
    push_shell_quoted(&mut out, "a b");
    assert_eq!(out, "run 'a b'");
}

#[test]
fn quoted_text_reads_back_as_one_word() {
    for text in [
        "",
        "plain",
        "/tmp/My Script.sh",
        "it's",
        "'",
        "'''",
        r"back\slash",
        r#"mixed 'single' "double" $var `tick` \ end"#,
        "line\nbreak",
        "tab\there",
        "ünïcödé ✓",
    ] {
        assert_eq!(read_shell_word(&shell_quote(text)), Some(text.to_string()));
    }
}

#[test]
fn unquoted_text_with_a_blank_is_no_single_word() {
    assert_eq!(read_shell_word("/tmp/My Script.sh"), None);
}

#[test]
fn keep_open_script_quotes_the_path() {
    assert_eq!(build_keep_open_script("/tmp/My Script.sh"), "'/tmp/My Script.sh'; exec bash");
    assert_eq!(build_keep_open_script("/tmp/run.sh"), "'/tmp/run.sh'; exec bash");
    assert_eq!(build_keep_open_script("/tmp/o'clock"), r"'/tmp/o'\''clock'; exec bash");
}

#[test]
fn launch_of_a_path_with_a_space_keeps_it_one_argument() {
    let launcher = TerminalLauncher::unix(None);
    let cmd = launcher.command("/tmp/My Script.sh");
    assert_eq!(cmd.program, "setsid");
    assert_eq!(
        cmd.args,
        strings(&[
            "x-terminal-emulator",
            "-e",
            "bash",
            "-c",
            "'/tmp/My Script.sh'; exec bash",
        ])
    );
    assert!(cmd.null_stdio);
    let script = &cmd.args[4];
    let word = &script[..script.len() - "; exec bash".len()];
    assert_eq!(read_shell_word(word), Some("/tmp/My Script.sh".to_string()));
}

#[test]
fn unix_command_uses_the_named_terminal() {
    let cmd = unix_command("alacritty", "/opt/tool");
    assert_eq!(
        cmd,
        LaunchCommand {
            program: "setsid".to_string(),
            args: strings(&["alacritty", "-e", "bash", "-c", "'/opt/tool'; exec bash"]),
            null_stdio: true,
        }
    );
}

#[test]
fn terminal_comes_from_the_environment_or_the_default() {
    assert_eq!(resolve_terminal(Some("kitty".to_string())), "kitty");
    assert_eq!(resolve_terminal(None), "x-terminal-emulator");
    assert_eq!(resolve_terminal(Some(String::new())), "");
    assert_eq!(DEFAULT_TERMINAL, "x-terminal-emulator");
    assert_eq!(TERMINAL_VARIABLE, "TERMINAL");
}

#[test]
fn unix_launcher_remembers_the_terminal() {
    assert_eq!(
        TerminalLauncher::unix(Some("foot".to_string())),
        TerminalLauncher::Unix { terminal: "foot".to_string() }
    );
    assert_eq!(
        TerminalLauncher::unix(None),
        TerminalLauncher::Unix { terminal: "x-terminal-emulator".to_string() }
    );
}

#[test]
fn windows_command_passes_the_path_as_its_own_argument() {
    let cmd = windows_command(r"C:\Users\me\My Script.ps1");
    assert_eq!(cmd.program, "cmd");
    assert_eq!(
        cmd.args,
        strings(&[
            "/C",
            "start",
            "powershell",
            "-NoExit",
            "-File",
            r"C:\Users\me\My Script.ps1",
        ])
    );
    assert!(!cmd.null_stdio);
    assert_eq!(TerminalLauncher::Windows.command(r"C:\a.ps1"), windows_command(r"C:\a.ps1"));
}

#[test]
fn macos_command_drives_terminal_through_a_script() {
    let cmd = macos_command("/tmp/run.sh");
    assert_eq!(cmd.program, "osascript");
    assert_eq!(
        cmd.args,
        strings(&[
            "-e",
            r#"tell application "Terminal" to do script "bash -c ''\\''/tmp/run.sh'\\''; exec bash'""#,
        ])
    );
    assert!(!cmd.null_stdio);
    assert_eq!(TerminalLauncher::MacOs.command("/tmp/run.sh"), cmd);
}

#[test]
fn macos_statement_for_a_path_with_a_space() {
    assert_eq!(
        build_apple_statement("/tmp/My Script.sh"),
        r#"tell application "Terminal" to do script "bash -c ''\\''/tmp/My Script.sh'\\''; exec bash'""#
    );
}

#[test]
fn macos_statement_survives_both_layers() {
    for path in ["/tmp/My Script.sh", r#"/tmp/a"b"#, r"/tmp/it's\here", "/tmp/x"] {
        let statement = build_apple_statement(path);
        let head = r#"tell application "Terminal" to do script ""#;
        assert!(statement.starts_with(head));
        assert!(statement.ends_with('"'));
        let literal = &statement[head.len()..statement.len() - 1];
        let line = read_apple_literal(literal).unwrap();
        let argument = line.strip_prefix("bash -c ").unwrap();
        let script = read_shell_word(argument).unwrap();
        let word = script.strip_suffix("; exec bash").unwrap();
        assert_eq!(read_shell_word(word), Some(path.to_string()));
    }
}

#[test]
fn apple_escape_doubles_backslash_and_escapes_double_quote() {
    let mut out = String::from(">");
    push_apple_escaped(&mut out, r#"a"b\c'd"#);
    assert_eq!(out, r#">a\"b\\c'd"#);
    let mut empty = String::new();
    push_apple_escaped(&mut empty, "");
    assert_eq!(empty, "");
}

#[test]
fn a_refused_spawn_is_reported_as_spawn_failed() {
    let failure = OsFailure { code: Some(2), message: "No such file or directory".to_string() };
    assert_eq!(
        launch_outcome(Err(failure.clone())),
        Err(LaunchError::SpawnFailed(failure))
    );
}

#[test]
fn a_refused_spawn_without_a_code_is_reported_too() {
    let failure = OsFailure { code: None, message: "permission denied".to_string() };
    let outcome = launch_outcome(Err(failure.clone()));
    assert!(outcome.is_err());
    assert_eq!(outcome.unwrap_err().cause(), &failure);
}

#[test]
fn an_accepted_spawn_is_success() {
    assert_eq!(launch_outcome(Ok(())), Ok(()));
}

#[test]
fn launch_error_message_names_the_cause() {
    let error = LaunchError::SpawnFailed(OsFailure {
        code: Some(13),
        message: "Permission denied (os error 13)".to_string(),
    });
    assert_eq!(
        error.message(),
        "could not start the terminal: Permission denied (os error 13)"
    );
}
