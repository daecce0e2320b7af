use offload::executor::{
    exit_code_of_child, render_line, start_shell, ShellRequest, StdioMode, StreamKind,
};

#[test]
fn shell_changes_to_the_workspace_and_runs_the_command() {
    assert_eq!(
        start_shell("make test", "/tmp/feature/x"),
        ShellRequest {
            script: "cd /tmp/feature/x && make test".to_string(),
            stdin: StdioMode::Piped,
            stdout: StdioMode::Piped,
            stderr: StdioMode::Piped,
        }
    );
}

#[test]
fn shell_passes_the_command_on_unquoted() {
    let request = start_shell("ls *.rs | wc -l; echo \"$HOME\"", "/tmp/main");
    assert_eq!(request.script, "cd /tmp/main && ls *.rs | wc -l; echo \"$HOME\"");
}

#[test]
fn stdout_lines_are_prefixed_with_greater_than() {
    assert_eq!(render_line(StreamKind::Stdout, "hello"), "> hello");
    assert_eq!(render_line(StreamKind::Stdout, ""), "> ");
}

#[test]
fn stderr_lines_are_prefixed_with_bang() {
    assert_eq!(render_line(StreamKind::Stderr, "oops"), "! oops");
    assert_eq!(render_line(StreamKind::Stderr, "  indented"), "!   indented");
}

#[test]
fn rendering_keeps_every_line_in_order() {
    let lines = ["one", "", "> nested", "three\r"];
    let shown: Vec<String> = lines.iter().map(|l| render_line(StreamKind::Stdout, l)).collect();
    assert_eq!(shown, vec!["> one", "> ", "> > nested", "> three\r"]);
    for (line, shown) in lines.iter().zip(&shown) {
        assert_eq!(&shown[2..], *line);
    }
}

#[test]
fn child_code_is_its_own_or_one() {
    assert_eq!(exit_code_of_child(Some(0)), 0);
    assert_eq!(exit_code_of_child(Some(3)), 3);
    assert_eq!(exit_code_of_child(None), 1);
}
