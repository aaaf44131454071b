use osmo_cli::errors::CliError;
use osmo_cli::handler::{handle_tx_output, process_tx_response, DaemonOutput};
use osmo_cli::registry::{Registry, RegistryEntry};

fn vault_registry() -> Registry {
    Registry {
        entries: vec![RegistryEntry {
            name: "vault".to_string(),
            address: "osmo1abc".to_string(),
        }],
    }
}

fn response_json() -> String {
    r#"{
        "code": 0,
        "codespace": "",
        "data": "0A00",
        "events": [
            {"type": "tx", "attributes": [{"key": "ZmVl", "value": ""}]},
            {"type": "message", "attributes": [{"key": "KEY64", "value": "VAL64"}]}
        ],
        "tx": {
            "@type": "/cosmos.tx.v1beta1.Tx",
            "body": {
                "messages": [{
                    "@type": "/cosmwasm.wasm.v1.MsgExecuteContract",
                    "sender": "osmo1sender",
                    "contract": "osmo1abc",
                    "msg": {"borrow": {"amount": "5"}},
                    "funds": [{"denom": "uosmo", "amount": "5"}]
                }],
                "memo": "",
                "timeout_height": "0",
                "extension_options": [],
                "non_critical_extension_options": []
            }
        },
        "logs": [{
            "msg_index": 0,
            "log": "",
            "events": [
                {"type": "wasm", "attributes": [{"key": "action", "value": "osmo1abc"}]}
            ]
        }]
    }"#
    .replace("KEY64", &base64::encode("action"))
    .replace("VAL64", &base64::encode("osmo1abc"))
}

#[test]
fn successful_response_yields_full_report() {
    let rep = process_tx_response(&response_json(), &vault_registry()).unwrap();
    assert_eq!(rep.sender, "osmo1sender");
    assert_eq!(rep.messages.len(), 1);
    assert_eq!(rep.messages[0].sender, "osmo1sender");
    assert_eq!(rep.messages[0].contract, "osmo1abc");
    assert_eq!(rep.messages[0].funds.len(), 1);
    assert_eq!(rep.messages[0].funds[0].denom, "uosmo");
    assert_eq!(rep.events_summary, "--> message( action: osmo1abc (vault) )\n");
    assert_eq!(rep.logs_summary, "--> wasm( action: osmo1abc (vault) )\n");
}

#[test]
fn empty_messages_list_fails_with_empty_messages_error() {
    let json = response_json().replace(
        r#""messages": [{
                    "@type": "/cosmwasm.wasm.v1.MsgExecuteContract",
                    "sender": "osmo1sender",
                    "contract": "osmo1abc",
                    "msg": {"borrow": {"amount": "5"}},
                    "funds": [{"denom": "uosmo", "amount": "5"}]
                }]"#,
        r#""messages": []"#,
    );
    assert!(matches!(
        process_tx_response(&json, &vault_registry()),
        Err(CliError::EmptyMessagesError)
    ));
}

#[test]
fn empty_logs_list_fails_with_empty_logs_error() {
    let json = response_json();
    let cut = json.find(r#""logs""#).unwrap();
    let json = format!("{}\"logs\": []\n    }}", &json[..cut]);
    assert!(matches!(
        process_tx_response(&json, &vault_registry()),
        Err(CliError::EmptyLogsError)
    ));
}

#[test]
fn malformed_json_fails_with_parse_error() {
    assert!(matches!(
        process_tx_response("this is not json at all", &vault_registry()),
        Err(CliError::ParseError(_))
    ));
}

#[test]
fn missing_field_fails_with_parse_error() {
    let json = response_json().replace(r#""code": 0,"#, "");
    assert!(matches!(
        process_tx_response(&json, &vault_registry()),
        Err(CliError::ParseError(_))
    ));
}

#[test]
fn mistyped_field_fails_with_parse_error() {
    let json = response_json().replace(r#""codespace": """#, r#""codespace": 7"#);
    assert!(matches!(
        process_tx_response(&json, &vault_registry()),
        Err(CliError::ParseError(_))
    ));
}

#[test]
fn failed_daemon_run_yields_command_error_with_stderr_text() {
    let output = DaemonOutput {
        success: false,
        stdout: "ignored".to_string(),
        stderr: "rpc node unreachable".to_string(),
    };
    match handle_tx_output(output, &vault_registry()) {
        Err(CliError::CommandError(m)) => assert_eq!(m, "rpc node unreachable"),
        other => panic!("expected CommandError, got {:?}", other.is_ok()),
    }
}

#[test]
fn successful_daemon_run_is_parsed() {
    let output = DaemonOutput {
        success: true,
        stdout: response_json(),
        stderr: "".to_string(),
    };
    let rep = handle_tx_output(output, &vault_registry()).unwrap();
    assert_eq!(rep.sender, "osmo1sender");
}

#[test]
fn error_descriptions_name_the_condition() {
    assert_eq!(
        CliError::NotFoundError.describe(),
        "contract name not found in registry"
    );
    assert_eq!(
        CliError::EmptyMessagesError.describe(),
        "transaction response contains no messages"
    );
    assert_eq!(
        CliError::EmptyLogsError.describe(),
        "transaction response contains no logs"
    );
    assert_eq!(
        CliError::ParseError("bad".to_string()).describe(),
        "failed to parse response: bad"
    );
    assert_eq!(
        CliError::CommandError("boom".to_string()).describe(),
        "command execution failed: boom"
    );
}
