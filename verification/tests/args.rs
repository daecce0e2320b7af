use offload::args::{parse_args, usage_line, Invocation};
use offload::error::{ErrorKind, ExitOutcome, Failure};

fn argv(items: &[&str]) -> Vec<String> {
    items.iter().map(|s| s.to_string()).collect()
}

#[test]
fn parse_args_takes_host_and_joins_the_rest() {
    let parsed = parse_args(argv(&["offload", "build.example.com", "make", "test"]));
    assert_eq!(
        parsed,
        Ok(Invocation { host: "build.example.com".to_string(), command: "make test".to_string() })
    );
}

#[test]
fn parse_args_accepts_a_single_command_token() {
    let parsed = parse_args(argv(&["offload", "user@host:2222", "ls"]));
    assert_eq!(
        parsed,
        Ok(Invocation { host: "user@host:2222".to_string(), command: "ls".to_string() })
    );
}

#[test]
fn parse_args_passes_tokens_on_verbatim() {
    let parsed = parse_args(argv(&["offload", "h", "echo", "a  b", "&&", "ls", "|", "wc"]));
    assert_eq!(parsed.unwrap().command, "echo a  b && ls | wc");
}

#[test]
fn parse_args_without_a_command_is_a_usage_error() {
    let parsed = parse_args(argv(&["offload", "build.example.com"]));
    let failure = parsed.unwrap_err();
    assert_eq!(failure, Failure::new(ErrorKind::UsageError, "Not enough arguments"));
    assert_eq!(ExitOutcome::Failed(failure).exit_code(), 2);
}

#[test]
fn parse_args_without_any_token_is_a_usage_error() {
    for given in [argv(&["offload"]), argv(&[])] {
        let failure = parse_args(given).unwrap_err();
        assert_eq!(failure.kind, ErrorKind::UsageError);
        assert_eq!(failure.reason, "Not enough arguments");
    }
}

#[test]
fn parse_args_rejects_an_empty_host() {
    let failure = parse_args(argv(&["offload", "", "ls"])).unwrap_err();
    assert_eq!(failure, Failure::new(ErrorKind::UsageError, "Empty hostname"));
}

#[test]
fn parse_args_rejects_an_empty_command() {
    let failure = parse_args(argv(&["offload", "host", ""])).unwrap_err();
    assert_eq!(failure, Failure::new(ErrorKind::UsageError, "Empty command"));
    // Two empty tokens are joined to one space, which is a command.
    assert_eq!(parse_args(argv(&["offload", "host", "", ""])).unwrap().command, " ");
}

#[test]
fn usage_line_names_the_program() {
    assert_eq!(usage_line("offload"), "Usage: offload <hostname> <command>");
    assert_eq!(usage_line("./target/debug/offload"), "Usage: ./target/debug/offload <hostname> <command>");
}

#[test]
fn usage_line_is_one_line() {
    assert_eq!(usage_line("odd\nname"), "Usage: odd name <hostname> <command>");
}
