use vstd::prelude::*;

use crate::model::{copy_string, Account, Machine};
use crate::text::{append, same_text};

verus! {

/// The error code of every failure reported on the tool protocol.
pub const INTERNAL_ERROR_CODE: i64 = -32603;

/// The tools offered to an agent.
#[derive(Debug, Clone, Copy, PartialEq, Eq, Structural)]
pub enum ToolName {
    RegisterMachine,
    ListMachines,
    DiagnoseConnection,
    RotateKeys,
}

/// Why a request was refused before any tool ran.
#[derive(Debug, Clone)]
pub enum ProtocolError {
    /// The method is none of those served.
    MethodNotFound,
    /// A tool call came without parameters.
    MissingParams,
    /// The tool name is unknown, or the tool needs arguments and got none.
    UnknownTool,
    /// A required argument is absent or not a string; it holds the field name.
    MissingArgument(String),
    /// `diagnose_connection` came without an integer `machine_id`.
    MissingMachineId,
}

/// The message reported for a protocol error.
pub open spec fn error_text(e: ProtocolError) -> Seq<char> {
    match e {
        ProtocolError::MethodNotFound => "Method not found"@,
        ProtocolError::MissingParams => "Missing params"@,
        ProtocolError::UnknownTool => "Unknown tool"@,
        ProtocolError::MissingArgument(k) => "Missing or invalid argument: "@ + k@,
        ProtocolError::MissingMachineId => "machine_id is required"@,
    }
}

impl ProtocolError {
    /// The message reported for this error.
    pub fn message(&self) -> (r: String)
        ensures
            r@ == error_text(*self),
    {
        match self {
            ProtocolError::MethodNotFound => "Method not found".to_owned(),
            ProtocolError::MissingParams => "Missing params".to_owned(),
            ProtocolError::UnknownTool => "Unknown tool".to_owned(),
            ProtocolError::MissingArgument(k) => {
                let mut m = "Missing or invalid argument: ".to_owned();
                append(&mut m, k.as_str());
                m
            },
            ProtocolError::MissingMachineId => "machine_id is required".to_owned(),
        }
    }
}

/// What a request asks the server to do.
#[derive(Debug, Clone)]
pub enum Dispatch {
    /// Report protocol and server metadata.
    Initialize,
    /// Acknowledge with an empty result.
    Initialized,
    /// Report the tool catalog.
    ListTools,
    /// Run a tool.
    Call(ToolName),
    /// Answer with this error.
    Reject(ProtocolError),
}

/// Where a `tools/call` leads, by tool name and whether arguments came.
pub open spec fn call_spec(tool: Option<Seq<char>>, has_arguments: bool) -> Dispatch {
    match tool {
        Some(t) => if t == "register_machine"@ && has_arguments {
            Dispatch::Call(ToolName::RegisterMachine)
        } else if t == "list_machines"@ {
            Dispatch::Call(ToolName::ListMachines)
        } else if t == "diagnose_connection"@ && has_arguments {
            Dispatch::Call(ToolName::DiagnoseConnection)
        } else if t == "rotate_keys"@ {
            Dispatch::Call(ToolName::RotateKeys)
        } else {
            Dispatch::Reject(ProtocolError::UnknownTool)
        },
        None => Dispatch::Reject(ProtocolError::UnknownTool),
    }
}

/// Where a request leads, by method, whether parameters came, the tool name
/// among them and whether arguments came.
pub open spec fn dispatch_spec(
    method: Seq<char>,
    has_params: bool,
    tool: Option<Seq<char>>,
    has_arguments: bool,
) -> Dispatch {
    if method == "initialize"@ {
        Dispatch::Initialize
    } else if method == "notifications/initialized"@ {
        Dispatch::Initialized
    } else if method == "tools/list"@ {
        Dispatch::ListTools
    } else if method == "tools/call"@ {
        if has_params {
            call_spec(tool, has_arguments)
        } else {
            Dispatch::Reject(ProtocolError::MissingParams)
        }
    } else {
        Dispatch::Reject(ProtocolError::MethodNotFound)
    }
}

/// Decides what a request asks for.
pub fn dispatch(method: &str, has_params: bool, tool: Option<&str>, has_arguments: bool) -> (r:
    Dispatch)
    ensures
        r == dispatch_spec(
            method@,
            has_params,
            match tool {
                Some(t) => Some(t@),
                None => None,
            },
            has_arguments,
        ),
{
    if same_text(method, "initialize") {
        Dispatch::Initialize
    } else if same_text(method, "notifications/initialized") {
        Dispatch::Initialized
    } else if same_text(method, "tools/list") {
        Dispatch::ListTools
    } else if same_text(method, "tools/call") {
        if !has_params {
            return Dispatch::Reject(ProtocolError::MissingParams);
        }
        match tool {
            Some(t) => if same_text(t, "register_machine") && has_arguments {
                Dispatch::Call(ToolName::RegisterMachine)
            } else if same_text(t, "list_machines") {
                Dispatch::Call(ToolName::ListMachines)
            } else if same_text(t, "diagnose_connection") && has_arguments {
                Dispatch::Call(ToolName::DiagnoseConnection)
            } else if same_text(t, "rotate_keys") {
                Dispatch::Call(ToolName::RotateKeys)
            } else {
                Dispatch::Reject(ProtocolError::UnknownTool)
            },
            None => Dispatch::Reject(ProtocolError::UnknownTool),
        }
    } else {
        Dispatch::Reject(ProtocolError::MethodNotFound)
    }
}

/// A tool as the catalog describes it to an agent.
pub struct ToolInfo {
    pub name: String,
    pub description: String,
    /// Each input field with its JSON type.
    pub properties: Vec<(String, String)>,
    /// The input fields that must be present.
    pub required: Vec<String>,
}

/// The input fields of `register_machine`, in order.
pub open spec fn registration_field(i: int) -> Seq<char> {
    if i == 0 {
        "name"@
    } else if i == 1 {
        "ip_address"@
    } else if i == 2 {
        "purpose"@
    } else if i == 3 {
        "ownership"@
    } else if i == 4 {
        "os_type"@
    } else if i == 5 {
        "username"@
    } else if i == 6 {
        "auth_type"@
    } else {
        "credential"@
    }
}

/// The fields of `register_machine` that must be present, in order: all but
/// `purpose`.
pub open spec fn required_field_name(i: int) -> Seq<char> {
    if i < 2 {
        registration_field(i)
    } else {
        registration_field(i + 1)
    }
}

fn registration_fields() -> (r: Vec<String>)
    ensures
        r@.len() == 8,
        forall|i: int| 0 <= i < 8 ==> (#[trigger] r@[i])@ == registration_field(i),
{
    let mut r: Vec<String> = Vec::new();
    r.push("name".to_owned());
    r.push("ip_address".to_owned());
    r.push("purpose".to_owned());
    r.push("ownership".to_owned());
    r.push("os_type".to_owned());
    r.push("username".to_owned());
    r.push("auth_type".to_owned());
    r.push("credential".to_owned());
    r
}

/// The catalog of tools: exactly `register_machine`, `list_machines`,
/// `diagnose_connection` and `rotate_keys`, in that order, each with its input
/// fields and the fields it requires.
pub fn tool_catalog() -> (r: Vec<ToolInfo>)
    ensures
        r@.len() == 4,
        r@[0].name@ == "register_machine"@,
        r@[1].name@ == "list_machines"@,
        r@[2].name@ == "diagnose_connection"@,
        r@[3].name@ == "rotate_keys"@,
        r@[0].properties@.len() == 8,
        forall|i: int| 0 <= i < 8 ==> (#[trigger] r@[0].properties@[i]).0@ == registration_field(i)
            && r@[0].properties@[i].1@ == "string"@,
        r@[0].required@.len() == 7,
        forall|i: int| 0 <= i < 7 ==> (#[trigger] r@[0].required@[i])@ == required_field_name(i),
        r@[1].properties@.len() == 0 && r@[1].required@.len() == 0,
        r@[2].properties@.len() == 1,
        r@[2].properties@[0].0@ == "machine_id"@ && r@[2].properties@[0].1@ == "integer"@,
        r@[2].required@.len() == 1 && r@[2].required@[0]@ == "machine_id"@,
        r@[3].properties@.len() == 0 && r@[3].required@.len() == 0,
{
    let names = registration_fields();
    let mut properties: Vec<(String, String)> = Vec::new();
    let mut i: usize = 0;
    while i < names.len()
        invariant
            i <= names@.len() == 8,
            forall|k: int| 0 <= k < 8 ==> (#[trigger] names@[k])@ == registration_field(k),
            properties@.len() == i,
            forall|k: int| 0 <= k < i ==> (#[trigger] properties@[k]).0@ == registration_field(k)
                && properties@[k].1@ == "string"@,
        decreases names@.len() - i,
    {
        properties.push((copy_string(&names[i]), "string".to_owned()));
        i = i + 1;
    }
    let mut required: Vec<String> = Vec::new();
    let mut j: usize = 0;
    while j < names.len()
        invariant
            j <= names@.len() == 8,
            forall|k: int| 0 <= k < 8 ==> (#[trigger] names@[k])@ == registration_field(k),
            required@.len() == if j <= 2 { j as int } else { j - 1 },
            forall|k: int| 0 <= k < required@.len() ==> (#[trigger] required@[k])@ == required_field_name(k),
        decreases names@.len() - j,
    {
        if j != 2 {
            required.push(copy_string(&names[j]));
        }
        j = j + 1;
    }
    let mut catalog: Vec<ToolInfo> = Vec::new();
    catalog.push(
        ToolInfo {
            name: "register_machine".to_owned(),
            description: "Register a new machine".to_owned(),
            properties,
            required,
        },
    );
    catalog.push(
        ToolInfo {
            name: "list_machines".to_owned(),
            description: "List all registered machines".to_owned(),
            properties: Vec::new(),
            required: Vec::new(),
        },
    );
    let mut diag_props: Vec<(String, String)> = Vec::new();
    diag_props.push(("machine_id".to_owned(), "integer".to_owned()));
    let mut diag_required: Vec<String> = Vec::new();
    diag_required.push("machine_id".to_owned());
    catalog.push(
        ToolInfo {
            name: "diagnose_connection".to_owned(),
            description: "Diagnose SSH connection issues and provide agentic hints".to_owned(),
            properties: diag_props,
            required: diag_required,
        },
    );
    catalog.push(
        ToolInfo {
            name: "rotate_keys".to_owned(),
            description: "Rotate the master encryption key and re-encrypt all stored credentials".to_owned(),
            properties: Vec::new(),
            required: Vec::new(),
        },
    );
    catalog
}

/// The string arguments of `register_machine` as they came: `None` where a
/// field is absent or not a string.
pub struct RegistrationFields {
    pub name: Option<String>,
    pub ip_address: Option<String>,
    pub purpose: Option<String>,
    pub ownership: Option<String>,
    pub os_type: Option<String>,
    pub username: Option<String>,
    pub auth_type: Option<String>,
    pub credential: Option<String>,
}

/// A validated registration: the machine to create, and the account to create
/// on it once the machine has its id.
pub struct Registration {
    pub machine: Machine,
    pub username: String,
    pub auth_type: String,
    pub credential: String,
}

/// The first required field that is missing, in the order in which they are checked.
pub open spec fn first_missing(f: RegistrationFields) -> Option<Seq<char>> {
    if f.name is None {
        Some("name"@)
    } else if f.ip_address is None {
        Some("ip_address"@)
    } else if f.ownership is None {
        Some("ownership"@)
    } else if f.os_type is None {
        Some("os_type"@)
    } else if f.username is None {
        Some("username"@)
    } else if f.auth_type is None {
        Some("auth_type"@)
    } else if f.credential is None {
        Some("credential"@)
    } else {
        None
    }
}

fn required_field(v: &Option<String>, field: &str) -> (r: Result<String, ProtocolError>)
    ensures
        match v {
            Some(s) => r == Ok::<String, ProtocolError>(*s),
            None => r matches Err(ProtocolError::MissingArgument(k)) && k@ == field@,
        },
{
    match v {
        Some(s) => Ok(copy_string(s)),
        None => Err(ProtocolError::MissingArgument(field.to_owned())),
    }
}

/// Checks the arguments of `register_machine`. Every field but `purpose` is
/// required; a missing `purpose` is empty. The machine starts out active.
pub fn validate_registration(f: &RegistrationFields) -> (r: Result<Registration, ProtocolError>)
    ensures
        match first_missing(*f) {
            Some(k) => r matches Err(ProtocolError::MissingArgument(m)) && m@ == k,
            None => r matches Ok(g) && {
                &&& g.machine.id is None
                &&& Some(g.machine.name) == f.name
                &&& Some(g.machine.ip_address) == f.ip_address
                &&& g.machine.purpose@ == match f.purpose {
                    Some(p) => p@,
                    None => Seq::<char>::empty(),
                }
                &&& Some(g.machine.ownership) == f.ownership
                &&& Some(g.machine.os_type) == f.os_type
                &&& g.machine.status@ == "active"@
                &&& Some(g.username) == f.username
                &&& Some(g.auth_type) == f.auth_type
                &&& Some(g.credential) == f.credential
            },
        },
{
    let name = required_field(&f.name, "name")?;
    let ip_address = required_field(&f.ip_address, "ip_address")?;
    let ownership = required_field(&f.ownership, "ownership")?;
    let os_type = required_field(&f.os_type, "os_type")?;
    let username = required_field(&f.username, "username")?;
    let auth_type = required_field(&f.auth_type, "auth_type")?;
    let credential = required_field(&f.credential, "credential")?;
    let purpose = match &f.purpose {
        Some(p) => copy_string(p),
        None => String::new(),
    };
    Ok(
        Registration {
            machine: Machine {
                id: None,
                name,
                ip_address,
                purpose,
                ownership,
                os_type,
                status: "active".to_owned(),
            },
            username,
            auth_type,
            credential,
        },
    )
}

impl Registration {
    /// The account to create once the machine has id `machine_id`; its credential
    /// is still the plaintext.
    pub fn account_for(&self, machine_id: i64) -> (r: Account)
        ensures
            r.id is None,
            r.machine_id == machine_id,
            r.username == self.username,
            r.auth_type == self.auth_type,
            r.credential == self.credential,
    {
        Account {
            id: None,
            machine_id,
            username: copy_string(&self.username),
            auth_type: copy_string(&self.auth_type),
            credential: copy_string(&self.credential),
        }
    }
}

/// The decimal digit for a value below ten.
pub open spec fn decimal_digit(n: nat) -> char {
    (n + 48) as char
}

/// The decimal digits of a natural number, without leading zeros.
pub open spec fn decimal_digits(n: nat) -> Seq<char>
    decreases n,
{
    if n < 10 {
        seq![decimal_digit(n)]
    } else {
        decimal_digits(n / 10).push(decimal_digit(n % 10))
    }
}

/// An integer in decimal, with a leading minus sign when negative.
pub open spec fn decimal_text(n: int) -> Seq<char> {
    if n < 0 {
        seq!['-'] + decimal_digits((-n) as nat)
    } else {
        decimal_digits(n as nat)
    }
}

/// The one-character text of a decimal digit.
fn digit_text(d: u64) -> (r: &'static str)
    requires
        d < 10,
    ensures
        r@ == seq![decimal_digit(d as nat)],
{
    proof {
        reveal_strlit("0");
        reveal_strlit("1");
        reveal_strlit("2");
        reveal_strlit("3");
        reveal_strlit("4");
        reveal_strlit("5");
        reveal_strlit("6");
        reveal_strlit("7");
        reveal_strlit("8");
        reveal_strlit("9");
    }
    let r = if d == 0 {
        "0"
    } else if d == 1 {
        "1"
    } else if d == 2 {
        "2"
    } else if d == 3 {
        "3"
    } else if d == 4 {
        "4"
    } else if d == 5 {
        "5"
    } else if d == 6 {
        "6"
    } else if d == 7 {
        "7"
    } else if d == 8 {
        "8"
    } else {
        "9"
    };
    assert(r@ =~= seq![decimal_digit(d as nat)]);
    r
}

/// Appends the decimal digits of `n` to `s`.
fn push_digits(s: &mut String, n: u64)
    ensures
        final(s)@ == old(s)@ + decimal_digits(n as nat),
    decreases n,
{
    if n >= 10 {
        push_digits(s, n / 10);
    }
    append(s, digit_text(n % 10));
    assert(s@ =~= old(s)@ + decimal_digits(n as nat));
}

/// An integer in decimal, with a leading minus sign when negative.
pub fn decimal(n: i64) -> (r: String)
    ensures
        r@ == decimal_text(n as int),
{
    let mut s = String::new();
    if n < 0 {
        append(&mut s, "-");
        proof {
            reveal_strlit("-");
        }
        let magnitude: u64 = (0i128 - n as i128) as u64;
        push_digits(&mut s, magnitude);
        assert(s@ =~= decimal_text(n as int));
    } else {
        push_digits(&mut s, n as u64);
        assert(s@ =~= decimal_text(n as int));
    }
    s
}

/// The text that reports a registration.
pub open spec fn registered_text(machine_id: int) -> Seq<char> {
    "Machine registered with ID "@ + decimal_text(machine_id)
}

/// Reports that a machine was registered under `machine_id`.
pub fn registered_message(machine_id: i64) -> (r: String)
    ensures
        r@ == registered_text(machine_id as int),
{
    let mut m = "Machine registered with ID ".to_owned();
    let digits = decimal(machine_id);
    append(&mut m, digits.as_str());
    m
}

/// The error member of a response.
pub struct RpcError {
    pub code: i64,
    pub message: String,
}

/// A response: the request's id, and either a result or an error, never both.
pub struct Envelope<I, R> {
    pub id: Option<I>,
    pub result: Option<R>,
    pub error: Option<RpcError>,
}

/// Whether `e` answers a request with id `id` whose handling came out as `outcome`.
pub open spec fn answers<I, R>(e: Envelope<I, R>, id: Option<I>, outcome: Result<R, String>) -> bool {
    &&& e.id == id
    &&& match outcome {
        Ok(v) => e.result == Some(v) && e.error is None,
        Err(m) => e.result is None && (e.error matches Some(x) && x.code == INTERNAL_ERROR_CODE
            && x.message == m),
    }
}

/// The response to a request with id `id` whose handling came out as `outcome`;
/// every failure carries the internal-error code.
pub fn envelope<I, R>(id: Option<I>, outcome: Result<R, String>) -> (r: Envelope<I, R>)
    ensures
        answers(r, id, outcome),
{
    match outcome {
        Ok(v) => Envelope { id, result: Some(v), error: None },
        Err(m) => Envelope {
            id,
            result: None,
            error: Some(RpcError { code: INTERNAL_ERROR_CODE, message: m }),
        },
    }
}

/// The response to one line of the stream: `None` for a line that did not parse
/// as a request, which is dropped; otherwise the response to the request, with
/// its own id.
pub fn answer_line<I, R>(line: Option<(Option<I>, Result<R, String>)>) -> (r: Option<Envelope<I, R>>)
    ensures
        line is None ==> r is None,
        line matches Some(req) ==> r matches Some(e) && answers(e, req.0, req.1),
{
    match line {
        None => None,
        Some((id, outcome)) => Some(envelope(id, outcome)),
    }
}

/// Whether `out` is what the stream of `lines` gets back: one response per line
/// that parsed, in order, each answering its own request.
pub open spec fn replies<I, R>(lines: Seq<Option<(Option<I>, Result<R, String>)>>, out: Seq<Envelope<I, R>>) -> bool
    decreases lines.len(),
{
    if lines.len() == 0 {
        out.len() == 0
    } else {
        match lines.last() {
            None => replies(lines.drop_last(), out),
            Some(req) => out.len() > 0 && answers(out.last(), req.0, req.1) && replies(
                lines.drop_last(),
                out.drop_last(),
            ),
        }
    }
}

/// Answers every line of a stream in order: a malformed line gets no response
/// and does not disturb the lines after it.
pub fn answer_lines<I, R>(lines: Vec<Option<(Option<I>, Result<R, String>)>>) -> (r: Vec<Envelope<I, R>>)
    ensures
        replies(lines@, r@),
{
    let ghost all = lines@;
    let ghost done: Seq<Option<(Option<I>, Result<R, String>)>> = Seq::empty();
    let mut rest = lines;
    let mut out: Vec<Envelope<I, R>> = Vec::new();
    while rest.len() > 0
        invariant
            all == done + rest@,
            replies(done, out@),
        decreases rest@.len(),
    {
        let x = rest.remove(0);
        let ghost before = out@;
        let ghost xg = x;
        match answer_line(x) {
            Some(e) => {
                out.push(e);
                assert(out@.drop_last() =~= before);
            },
            None => {},
        }
        proof {
            assert(done.push(xg).drop_last() =~= done);
            done = done.push(xg);
            assert(all =~= done + rest@);
        }
    }
    assert(done =~= all);
    out
}

/// A line that does not parse gets no response, and the well-formed line after
/// it is still answered, with its own id.
pub proof fn lemma_malformed_line_skipped<I, R>(
    lines: Seq<Option<(Option<I>, Result<R, String>)>>,
    out: Seq<Envelope<I, R>>,
    id: Option<I>,
    outcome: Result<R, String>,
)
    requires
        replies(lines.push(None).push(Some((id, outcome))), out),
    ensures
        out.len() > 0,
        answers(out.last(), id, outcome),
        out.last().id == id,
        replies(lines, out.drop_last()),
{
    let both = lines.push(None).push(Some((id, outcome)));
    assert(both.drop_last() =~= lines.push(None));
    assert(lines.push(None).drop_last() =~= lines);
    assert(replies(lines.push(None), out.drop_last()));
    assert(lines.push(None).last() is None);
}

} // verus!
