use crab_chat_peer::{parse_input_line, BootstrapParseError, Cli, InputCommand};

#[test]
fn listen_addr_default_is_any_interface_any_port() {
    let cli = Cli::new(None, Vec::new());
    assert_eq!(cli.listen_addr(), "/ip4/0.0.0.0/tcp/0");
}

#[test]
fn listen_addr_override_wins() {
    let cli = Cli::new(Some("/ip4/127.0.0.1/tcp/9000".to_string()), Vec::new());
    assert_eq!(cli.listen_addr(), "/ip4/127.0.0.1/tcp/9000");
}

#[test]
fn bootstrap_entries_all_parse() {
    let cli = Cli::new(
        None,
        vec![
            "peer1:/ip4/10.0.0.1/tcp/4001".to_string(),
            "peer2:/ip4/10.0.0.2/tcp/4001".to_string(),
        ],
    );
    let v = cli.parse_bootstrap_entries().unwrap();
    assert_eq!(v.len(), 2);
    assert_eq!(v[0].peer_id, "peer1");
    assert_eq!(v[1].addr, "/ip4/10.0.0.2/tcp/4001");
}

#[test]
fn bootstrap_entries_report_the_failing_entry() {
    let cli = Cli::new(
        None,
        vec!["peer1:/ip4/10.0.0.1/tcp/4001".to_string(), "peer-without-addr".to_string()],
    );
    let e = cli.parse_bootstrap_entries().unwrap_err();
    assert_eq!(e, BootstrapParseError::MissingAddress);
}

#[test]
fn join_line_parses() {
    assert_eq!(parse_input_line("/join general"), InputCommand::Join("general".to_string()));
}

#[test]
fn send_line_parses_room_and_text() {
    assert_eq!(
        parse_input_line("/send general hello there"),
        InputCommand::Send { topic: "general".to_string(), message: "hello there".to_string() }
    );
}

#[test]
fn send_line_without_text_is_invalid() {
    assert_eq!(parse_input_line("/send general"), InputCommand::Invalid);
}

#[test]
fn chat_line_parses() {
    assert_eq!(parse_input_line("/chat general"), InputCommand::Chat("general".to_string()));
}

#[test]
fn other_lines_are_unknown() {
    assert_eq!(parse_input_line("hello"), InputCommand::Unknown);
    assert_eq!(parse_input_line("/quit now"), InputCommand::Unknown);
    assert_eq!(parse_input_line("/join"), InputCommand::Unknown);
    assert_eq!(parse_input_line(""), InputCommand::Unknown);
}
