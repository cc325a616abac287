use mcp_ssh_manager::diagnose::{probe_arguments, probe_target, DiagnoseError};
use mcp_ssh_manager::model::{Account, Machine};
use mcp_ssh_manager::protocol::{
    answer_line, answer_lines, decimal, dispatch, envelope, registered_message, tool_catalog,
    validate_registration, Dispatch, ProtocolError, RegistrationFields, ToolName,
    INTERNAL_ERROR_CODE,
};

fn machine(id: i64, name: &str, ip: &str) -> Machine {
    Machine {
        id: Some(id),
        name: name.to_string(),
        ip_address: ip.to_string(),
        purpose: String::new(),
        ownership: "personal".to_string(),
        os_type: "linux".to_string(),
        status: "active".to_string(),
    }
}

fn account(machine_id: i64, user: &str) -> Account {
    Account {
        id: None,
        machine_id,
        username: user.to_string(),
        auth_type: "password".to_string(),
        credential: "x".to_string(),
    }
}

fn full_fields() -> RegistrationFields {
    RegistrationFields {
        name: Some("web1".to_string()),
        ip_address: Some("10.0.0.5".to_string()),
        purpose: None,
        ownership: Some("company".to_string()),
        os_type: Some("linux".to_string()),
        username: Some("admin".to_string()),
        auth_type: Some("password".to_string()),
        credential: Some("s3cret".to_string()),
    }
}

#[test]
fn tools_list_has_exactly_four_tools() {
    let tools = tool_catalog();
    let names: Vec<&str> = tools.iter().map(|t| t.name.as_str()).collect();
    assert_eq!(names, vec!["register_machine", "list_machines", "diagnose_connection", "rotate_keys"]);
    assert_eq!(tools[0].properties.len(), 8);
    assert_eq!(
        tools[0].required,
        vec!["name", "ip_address", "ownership", "os_type", "username", "auth_type", "credential"]
    );
    assert!(tools[0].properties.iter().any(|(f, _)| f == "purpose"));
    assert_eq!(tools[2].required, vec!["machine_id".to_string()]);
    assert_eq!(tools[2].properties[0].1, "integer");
}

#[test]
fn dispatch_methods() {
    assert!(matches!(dispatch("initialize", false, None, false), Dispatch::Initialize));
    assert!(matches!(dispatch("notifications/initialized", false, None, false), Dispatch::Initialized));
    assert!(matches!(dispatch("tools/list", false, None, false), Dispatch::ListTools));
    assert!(matches!(dispatch("bogus", true, None, false), Dispatch::Reject(ProtocolError::MethodNotFound)));
    assert!(matches!(dispatch("tools/call", false, None, false), Dispatch::Reject(ProtocolError::MissingParams)));
}

#[test]
fn dispatch_tool_calls() {
    assert!(matches!(
        dispatch("tools/call", true, Some("register_machine"), true),
        Dispatch::Call(ToolName::RegisterMachine)
    ));
    assert!(matches!(
        dispatch("tools/call", true, Some("register_machine"), false),
        Dispatch::Reject(ProtocolError::UnknownTool)
    ));
    assert!(matches!(dispatch("tools/call", true, Some("list_machines"), false), Dispatch::Call(ToolName::ListMachines)));
    assert!(matches!(
        dispatch("tools/call", true, Some("diagnose_connection"), true),
        Dispatch::Call(ToolName::DiagnoseConnection)
    ));
    assert!(matches!(dispatch("tools/call", true, Some("rotate_keys"), false), Dispatch::Call(ToolName::RotateKeys)));
    assert!(matches!(dispatch("tools/call", true, Some("nope"), true), Dispatch::Reject(ProtocolError::UnknownTool)));
    assert!(matches!(dispatch("tools/call", true, None, true), Dispatch::Reject(ProtocolError::UnknownTool)));
}

#[test]
fn error_messages() {
    assert_eq!(ProtocolError::MethodNotFound.message(), "Method not found");
    assert_eq!(ProtocolError::MissingParams.message(), "Missing params");
    assert_eq!(ProtocolError::UnknownTool.message(), "Unknown tool");
    assert_eq!(ProtocolError::MissingArgument("username".to_string()).message(), "Missing or invalid argument: username");
    assert_eq!(ProtocolError::MissingMachineId.message(), "machine_id is required");
}

#[test]
fn registration_with_all_fields() {
    let g = validate_registration(&full_fields()).unwrap();
    assert_eq!(g.machine.id, None);
    assert_eq!(g.machine.name, "web1");
    assert_eq!(g.machine.purpose, "");
    assert_eq!(g.machine.status, "active");
    let a = g.account_for(17);
    assert_eq!(a.machine_id, 17);
    assert_eq!(a.username, "admin");
    assert_eq!(a.credential, "s3cret");
    assert_eq!(registered_message(17), "Machine registered with ID 17");
    assert!(registered_message(17).contains("17"));
    assert_eq!(registered_message(-3), "Machine registered with ID -3");
    assert_eq!(registered_message(0), "Machine registered with ID 0");
    assert_eq!(registered_message(i64::MIN), "Machine registered with ID -9223372036854775808");
}

#[test]
fn registration_reports_first_missing_field() {
    let mut f = full_fields();
    f.username = None;
    f.credential = None;
    match validate_registration(&f) {
        Err(ProtocolError::MissingArgument(k)) => assert_eq!(k, "username"),
        _ => panic!("expected a missing argument"),
    }
    let mut f = full_fields();
    f.name = None;
    match validate_registration(&f) {
        Err(ProtocolError::MissingArgument(k)) => assert_eq!(k, "name"),
        _ => panic!("expected a missing argument"),
    }
}

#[test]
fn envelope_has_result_or_error() {
    let ok = envelope(Some(1), Ok::<&str, String>("done"));
    assert_eq!(ok.id, Some(1));
    assert_eq!(ok.result, Some("done"));
    assert!(ok.error.is_none());
    let bad = envelope(Some(2), Err::<&str, String>("Unknown tool".to_string()));
    assert!(bad.result.is_none());
    let e = bad.error.unwrap();
    assert_eq!(e.code, INTERNAL_ERROR_CODE);
    assert_eq!(e.code, -32603);
    assert_eq!(e.message, "Unknown tool");
}

#[test]
fn malformed_line_gets_no_response() {
    assert!(answer_line::<i64, i64>(None).is_none());
    let out = answer_lines(vec![None, Some((Some(1), Ok::<&str, String>("tools")))]);
    assert_eq!(out.len(), 1);
    assert_eq!(out[0].id, Some(1));
    assert_eq!(out[0].result, Some("tools"));
}

#[test]
fn probe_target_lookup() {
    let machines = vec![machine(1, "a", "10.0.0.1"), machine(2, "b", "10.0.0.2")];
    let accounts = vec![account(1, "alice"), account(2, "bob"), account(2, "carol")];
    let t = probe_target(&machines, &accounts, 2).unwrap();
    assert_eq!(t.target, "bob@10.0.0.2");
    assert_eq!(t.machine.name, "b");
    assert!(matches!(probe_target(&machines, &accounts, 3), Err(DiagnoseError::MachineNotFound)));
    assert!(matches!(probe_target(&machines, &accounts[..1].to_vec(), 2), Err(DiagnoseError::NoAccount)));
}

#[test]
fn probe_arguments_bound_the_attempt() {
    let a = probe_arguments("u@h");
    assert_eq!(a, vec!["-v", "-o", "BatchMode=yes", "-o", "ConnectTimeout=5", "u@h", "echo", "connection_success"]);
}

#[test]
fn decimal_formats_integers() {
    assert_eq!(decimal(0), "0");
    assert_eq!(decimal(9), "9");
    assert_eq!(decimal(10), "10");
    assert_eq!(decimal(-1203), "-1203");
    assert_eq!(decimal(i64::MAX), "9223372036854775807");
    assert_eq!(decimal(i64::MIN), "-9223372036854775808");
}
