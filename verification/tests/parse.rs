use ovpnfile::ConfigDirective;
use ovpnfile::ConfigLine;
use ovpnfile::File;
use ovpnfile::LineParseResult;
use ovpnfile::ParseWarning;
use ovpnfile::ServerBridgeArg;
use ovpnfile::parse_line;
use ovpnfile::parse_lines;

fn lines(text: &[&str]) -> Vec<String> {
    text.iter().map(|s| s.to_string()).collect()
}

#[test]
fn scenario_mixed_lines() {
    let input = lines(&["resolv-retry 10", "remote somehost someport", "unknown-command"]);
    let result = parse_lines(&input);
    assert_eq!(
        result.success_lines,
        vec![
            ConfigLine { number: 1, result: ConfigDirective::ResolvRetry { n: "10".to_string() } },
            ConfigLine {
                number: 2,
                result: ConfigDirective::Remote {
                    host: "somehost".to_string(),
                    port: Some("someport".to_string()),
                    proto: None,
                },
            },
        ]
    );
    assert_eq!(
        result.warning_lines,
        vec![ConfigLine { number: 3, result: ParseWarning::NoMatchingCommand }]
    );
}

#[test]
fn inline_block_tls_auth() {
    let input = lines(&["<tls-auth>", "line1", "line2", "</tls-auth>"]);
    let result = parse_lines(&input);
    assert_eq!(
        result.success_lines,
        vec![ConfigLine {
            number: 1,
            result: ConfigDirective::TlsAuth {
                file: File::InlineFileContents("line1\nline2".to_string()),
                direction: None,
            },
        }]
    );
    assert!(result.warning_lines.is_empty());
}

#[test]
fn fixed_arity_all_optionals() {
    let result = parse_lines(&lines(&["remote h p tcp"]));
    assert_eq!(
        result.success_lines,
        vec![ConfigLine {
            number: 1,
            result: ConfigDirective::Remote {
                host: "h".to_string(),
                port: Some("p".to_string()),
                proto: Some("tcp".to_string()),
            },
        }]
    );
}

#[test]
fn fixed_arity_required_only() {
    let result = parse_lines(&lines(&["remote h"]));
    assert_eq!(
        result.success_lines,
        vec![ConfigLine {
            number: 1,
            result: ConfigDirective::Remote { host: "h".to_string(), port: None, proto: None },
        }]
    );
}

#[test]
fn fixed_arity_not_enough() {
    let result = parse_lines(&lines(&["keepalive 10"]));
    assert!(result.success_lines.is_empty());
    assert_eq!(
        result.warning_lines,
        vec![ConfigLine { number: 1, result: ParseWarning::NotEnoughArguments }]
    );
}

#[test]
fn unknown_command_warns() {
    let result = parse_lines(&lines(&["frobnicate a b"]));
    assert!(result.success_lines.is_empty());
    assert_eq!(
        result.warning_lines,
        vec![ConfigLine { number: 1, result: ParseWarning::NoMatchingCommand }]
    );
}

#[test]
fn server_bridge_forms() {
    let result = parse_lines(&lines(&[
        "server-bridge nogw",
        "server-bridge 10.0.0.1 255.255.255.0 10.0.0.100 10.0.0.200",
        "server-bridge onearg",
        "server-bridge a b c d e",
    ]));
    assert_eq!(
        result.success_lines,
        vec![
            ConfigLine {
                number: 1,
                result: ConfigDirective::ServerBridge(ServerBridgeArg::NoGateway),
            },
            ConfigLine {
                number: 2,
                result: ConfigDirective::ServerBridge(ServerBridgeArg::GatewayConfig {
                    gateway: "10.0.0.1".to_string(),
                    netmask: "255.255.255.0".to_string(),
                    pool_start_ip: "10.0.0.100".to_string(),
                    pool_end_ip: "10.0.0.200".to_string(),
                }),
            },
        ]
    );
    assert_eq!(
        result.warning_lines,
        vec![
            ConfigLine { number: 3, result: ParseWarning::NotEnoughArguments },
            ConfigLine { number: 4, result: ParseWarning::NotEnoughArguments },
        ]
    );
}

#[test]
fn blank_and_comment_lines_contribute_nothing() {
    let result = parse_lines(&lines(&["", "   ", "# a comment", "   # indented comment", "\t"]));
    assert!(result.success_lines.is_empty());
    assert!(result.warning_lines.is_empty());
}

#[test]
fn trailing_comment_is_stripped() {
    let result = parse_lines(&lines(&["port 1194 # the usual port"]));
    assert_eq!(
        result.success_lines,
        vec![ConfigLine { number: 1, result: ConfigDirective::Port { port: "1194".to_string() } }]
    );
}

#[test]
fn varargs_commands() {
    let result = parse_lines(&lines(&["redirect-gateway def1 bypass-dhcp", "redirect-gateway"]));
    assert_eq!(
        result.success_lines,
        vec![ConfigLine {
            number: 1,
            result: ConfigDirective::RedirectGateway {
                flags: vec!["def1".to_string(), "bypass-dhcp".to_string()],
            },
        }]
    );
    assert_eq!(
        result.warning_lines,
        vec![ConfigLine { number: 2, result: ParseWarning::NotEnoughArguments }]
    );
}

#[test]
fn optional_varargs_commands() {
    let result = parse_lines(&lines(&["echo", "echo one two"]));
    assert_eq!(
        result.success_lines,
        vec![
            ConfigLine { number: 1, result: ConfigDirective::Echo { parms: None } },
            ConfigLine {
                number: 2,
                result: ConfigDirective::Echo {
                    parms: Some(vec!["one".to_string(), "two".to_string()]),
                },
            },
        ]
    );
}

#[test]
fn no_args_command_ignores_extra_tokens() {
    let result = parse_lines(&lines(&["client ignored tokens"]));
    assert_eq!(
        result.success_lines,
        vec![ConfigLine { number: 1, result: ConfigDirective::Client }]
    );
}

#[test]
fn inline_capable_command_with_path_argument() {
    let result = parse_lines(&lines(&["tls-auth somefile somedirection"]));
    assert_eq!(
        result.success_lines,
        vec![ConfigLine {
            number: 1,
            result: ConfigDirective::TlsAuth {
                file: File::FilePath("somefile".to_string()),
                direction: Some("somedirection".to_string()),
            },
        }]
    );
}

#[test]
fn unterminated_block_is_discarded() {
    let result = parse_lines(&lines(&["<ca>", "line1", "line2"]));
    assert!(result.success_lines.is_empty());
    assert!(result.warning_lines.is_empty());
}

#[test]
fn block_content_is_verbatim_until_matching_end() {
    let result = parse_lines(&lines(&["<ca>", "</cert>", "# not a comment here", "</ca>"]));
    assert_eq!(
        result.success_lines,
        vec![ConfigLine {
            number: 1,
            result: ConfigDirective::Ca {
                file: File::InlineFileContents("</cert>\n# not a comment here".to_string()),
            },
        }]
    );
}

#[test]
fn indented_marker_is_not_a_marker() {
    let result = parse_lines(&lines(&["  <ca>"]));
    assert!(result.success_lines.is_empty());
    assert_eq!(
        result.warning_lines,
        vec![ConfigLine { number: 1, result: ParseWarning::NoMatchingCommand }]
    );
}

#[test]
fn unknown_marker_identifier_falls_through() {
    let result = parse_lines(&lines(&["<nosuch>", "text", "</nosuch>"]));
    assert!(result.success_lines.is_empty());
    assert_eq!(result.warning_lines.len(), 3);
    assert_eq!(result.warning_lines[0].result, ParseWarning::NoMatchingCommand);
}

#[test]
fn http_proxy_user_pass_registered_name() {
    let result = parse_lines(&lines(&["http-proxy-user-type creds.txt"]));
    assert_eq!(
        result.success_lines,
        vec![ConfigLine {
            number: 1,
            result: ConfigDirective::HttpProxyUserPass {
                file: File::FilePath("creds.txt".to_string()),
            },
        }]
    );
}

#[test]
fn file_path_directive_round_trip() {
    let first = parse_lines(&lines(&["ca /etc/ssl/ca.pem"]));
    assert_eq!(first.success_lines.len(), 1);
    let directive = first.success_lines[0].result.clone();
    let serialized = match &directive {
        ConfigDirective::Ca { file: File::FilePath(p) } => format!("ca {}", p),
        other => panic!("unexpected directive {:?}", other),
    };
    let again = parse_lines(&vec![serialized]);
    assert_eq!(again.success_lines.len(), 1);
    assert_eq!(again.success_lines[0].result, directive);
}

#[test]
fn directives_accessor_strips_line_numbers() {
    let result = parse_lines(&lines(&["nobind", "", "verb 3"]));
    assert_eq!(
        result.directives(),
        vec![ConfigDirective::Nobind, ConfigDirective::Verb { n: "3".to_string() }]
    );
}

#[test]
fn parse_line_dispatches_directly() {
    let no_args: Vec<String> = Vec::new();
    match parse_line("client", &no_args) {
        LineParseResult::Success(ConfigDirective::Client) => {},
        other => panic!("unexpected result {:?}", other),
    }
    match parse_line("resolv-retry", &no_args) {
        LineParseResult::NotEnoughArguments => {},
        other => panic!("unexpected result {:?}", other),
    }
    match parse_line("no-such-command", &no_args) {
        LineParseResult::NoMatchingCommand => {},
        other => panic!("unexpected result {:?}", other),
    }
}

#[test]
fn line_numbers_skip_nothing() {
    let result = parse_lines(&lines(&["# header", "nobind", "", "bad-cmd", "verb 4"]));
    assert_eq!(result.success_lines[0].number, 2);
    assert_eq!(result.success_lines[1].number, 5);
    assert_eq!(result.warning_lines[0].number, 4);
}
