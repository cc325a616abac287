use vstd::prelude::*;

use crate::knowledge::{copy_suggestion, match_error_pattern, suggestion_for, Pattern, Suggestion};
use crate::model::{Account, Machine};
use crate::text::append;

verus! {

/// Why a diagnosis could not start.
#[derive(Debug, Clone, Copy, PartialEq, Eq, Structural)]
pub enum DiagnoseError {
    /// No machine has the requested id.
    MachineNotFound,
    /// The machine has no account.
    NoAccount,
}

/// The place of the first machine with id `id`, if any.
pub open spec fn machine_index(machines: Seq<Machine>, id: i64) -> Option<int>
    decreases machines.len(),
{
    if machines.len() == 0 {
        None
    } else {
        match machine_index(machines.drop_last(), id) {
            Some(i) => Some(i),
            None => if machines.last().id == Some(id) {
                Some(machines.len() - 1)
            } else {
                None
            },
        }
    }
}

/// The place of the first account of machine `machine_id`, if any.
pub open spec fn account_index(accounts: Seq<Account>, machine_id: i64) -> Option<int>
    decreases accounts.len(),
{
    if accounts.len() == 0 {
        None
    } else {
        match account_index(accounts.drop_last(), machine_id) {
            Some(i) => Some(i),
            None => if accounts.last().machine_id == machine_id {
                Some(accounts.len() - 1)
            } else {
                None
            },
        }
    }
}

/// The first machine with id `id`.
pub fn find_machine(machines: &Vec<Machine>, id: i64) -> (r: Option<usize>)
    ensures
        r matches Some(i) ==> machine_index(machines@, id) == Some(i as int) && i < machines@.len(),
        r is None ==> machine_index(machines@, id) is None,
{
    let mut i: usize = 0;
    while i < machines.len()
        invariant
            i <= machines@.len(),
            machine_index(machines@.subrange(0, i as int), id) is None,
        decreases machines@.len() - i,
    {
        assert(machines@.subrange(0, i + 1).drop_last() =~= machines@.subrange(0, i as int));
        if machines[i].id == Some(id) {
            proof { lemma_machine_prefix(machines@, id, i as int + 1); }
            return Some(i);
        }
        i = i + 1;
    }
    assert(machines@.subrange(0, i as int) =~= machines@);
    None
}

proof fn lemma_machine_prefix(machines: Seq<Machine>, id: i64, n: int)
    requires
        0 <= n <= machines.len(),
        machine_index(machines.subrange(0, n), id) is Some,
    ensures
        machine_index(machines, id) == machine_index(machines.subrange(0, n), id),
    decreases machines.len() - n,
{
    if n < machines.len() {
        assert(machines.subrange(0, n + 1).drop_last() =~= machines.subrange(0, n));
        lemma_machine_prefix(machines, id, n + 1);
    } else {
        assert(machines.subrange(0, n) =~= machines);
    }
}

proof fn lemma_account_prefix(accounts: Seq<Account>, machine_id: i64, n: int)
    requires
        0 <= n <= accounts.len(),
        account_index(accounts.subrange(0, n), machine_id) is Some,
    ensures
        account_index(accounts, machine_id) == account_index(accounts.subrange(0, n), machine_id),
    decreases accounts.len() - n,
{
    if n < accounts.len() {
        assert(accounts.subrange(0, n + 1).drop_last() =~= accounts.subrange(0, n));
        lemma_account_prefix(accounts, machine_id, n + 1);
    } else {
        assert(accounts.subrange(0, n) =~= accounts);
    }
}

/// The first account of machine `machine_id`.
pub fn find_first_account(accounts: &Vec<Account>, machine_id: i64) -> (r: Option<usize>)
    ensures
        r matches Some(i) ==> account_index(accounts@, machine_id) == Some(i as int) && i < accounts@.len(),
        r is None ==> account_index(accounts@, machine_id) is None,
{
    let mut i: usize = 0;
    while i < accounts.len()
        invariant
            i <= accounts@.len(),
            account_index(accounts@.subrange(0, i as int), machine_id) is None,
        decreases accounts@.len() - i,
    {
        assert(accounts@.subrange(0, i + 1).drop_last() =~= accounts@.subrange(0, i as int));
        if accounts[i].machine_id == machine_id {
            proof { lemma_account_prefix(accounts@, machine_id, i as int + 1); }
            return Some(i);
        }
        i = i + 1;
    }
    assert(accounts@.subrange(0, i as int) =~= accounts@);
    None
}

/// `user@host` for an account on a machine.
pub open spec fn target_text(username: Seq<char>, host: Seq<char>) -> Seq<char> {
    username + seq!['@'] + host
}

/// What a probe connects to: the machine and the first of its accounts.
pub struct ProbeTarget {
    pub machine: Machine,
    pub account: Account,
    /// `user@host`.
    pub target: String,
}

/// Looks up the machine `machine_id` and its first account, and builds the
/// `user@host` target of the probe.
pub fn probe_target(machines: &Vec<Machine>, accounts: &Vec<Account>, machine_id: i64) -> (r: Result<
    ProbeTarget,
    DiagnoseError,
>)
    ensures
        machine_index(machines@, machine_id) is None ==> r == Err::<ProbeTarget, DiagnoseError>(
            DiagnoseError::MachineNotFound,
        ),
        machine_index(machines@, machine_id) is Some && account_index(accounts@, machine_id) is None
            ==> r == Err::<ProbeTarget, DiagnoseError>(DiagnoseError::NoAccount),
        machine_index(machines@, machine_id) is Some && account_index(accounts@, machine_id) is Some
            ==> r is Ok,
        r matches Ok(t) ==> {
            &&& machine_index(machines@, machine_id) matches Some(m)
            &&& account_index(accounts@, machine_id) matches Some(a)
            &&& 0 <= m < machines@.len()
            &&& 0 <= a < accounts@.len()
            &&& t.machine == machines@[m]
            &&& t.account == accounts@[a]
            &&& t.target@ == target_text(accounts@[a].username@, machines@[m].ip_address@)
        },
{
    let m = match find_machine(machines, machine_id) {
        None => {
            return Err(DiagnoseError::MachineNotFound);
        },
        Some(m) => m,
    };
    let a = match find_first_account(accounts, machine_id) {
        None => {
            return Err(DiagnoseError::NoAccount);
        },
        Some(a) => a,
    };
    let machine = &machines[m];
    let account = &accounts[a];
    let mut target = account.username.clone();
    append(&mut target, "@");
    append(&mut target, machine.ip_address.as_str());
    proof {
        reveal_strlit("@");
        assert("@"@ =~= seq!['@']);
    }
    assert(target@ =~= target_text(accounts@[a as int].username@, machines@[m as int].ip_address@));
    let t = ProbeTarget {
        machine: Machine {
            id: machine.id,
            name: machine.name.clone(),
            ip_address: machine.ip_address.clone(),
            purpose: machine.purpose.clone(),
            ownership: machine.ownership.clone(),
            os_type: machine.os_type.clone(),
            status: machine.status.clone(),
        },
        account: Account {
            id: account.id,
            machine_id: account.machine_id,
            username: account.username.clone(),
            auth_type: account.auth_type.clone(),
            credential: account.credential.clone(),
        },
        target,
    };
    assert(t.machine == machines@[m as int]);
    assert(t.account == accounts@[a as int]);
    Ok(t)
}

/// The arguments of the probe: verbose, non-interactive, a bounded connection
/// timeout, and a canary command on the target.
pub fn probe_arguments(target: &str) -> (r: Vec<String>)
    ensures
        r@.len() == 8,
        r@[0]@ == "-v"@,
        r@[1]@ == "-o"@,
        r@[2]@ == "BatchMode=yes"@,
        r@[3]@ == "-o"@,
        r@[4]@ == "ConnectTimeout=5"@,
        r@[5]@ == target@,
        r@[6]@ == "echo"@,
        r@[7]@ == "connection_success"@,
{
    let mut r: Vec<String> = Vec::new();
    r.push("-v".to_owned());
    r.push("-o".to_owned());
    r.push("BatchMode=yes".to_owned());
    r.push("-o".to_owned());
    r.push("ConnectTimeout=5".to_owned());
    r.push(target.to_owned());
    r.push("echo".to_owned());
    r.push("connection_success".to_owned());
    r
}

/// What a diagnosis reports: text for a person, and the matched suggestion as
/// structured data for an agent.
pub struct Diagnosis {
    pub text: String,
    pub hint: Option<Suggestion>,
}

/// The text reported for a successful probe.
pub open spec fn success_text() -> Seq<char> {
    "Connection successful. No issues detected."@
}

/// The lines that present a suggestion.
pub open spec fn hint_text(s: Suggestion) -> Seq<char> {
    "--- AGENT HINT ---\n"@ + s.message@ + "\n"@ + match s.command_hint {
        Some(c) => "Suggested Command: `"@ + c@ + "`\n"@,
        None => Seq::empty(),
    } + match s.script_path {
        Some(p) => "Suggested Script: `"@ + p@ + "`\n"@,
        None => Seq::empty(),
    }
}

/// The text reported for a failed probe with stderr `stderr`.
pub open spec fn failure_text(stderr: Seq<char>, hint: Option<Suggestion>) -> Seq<char> {
    "SSH Connection Failed.\n\nSTDERR:\n"@ + stderr + "\n\n"@ + match hint {
        Some(s) => hint_text(s),
        None => "No specific troubleshooting hint found."@,
    }
}

/// The report for a successful probe.
pub fn report_success() -> (r: Diagnosis)
    ensures
        r.text@ == success_text(),
        r.hint is None,
{
    Diagnosis { text: "Connection successful. No issues detected.".to_owned(), hint: None }
}

/// The report for a failed probe whose stderr matched `hint`, or nothing.
pub fn report_failure(stderr: &str, hint: Option<Suggestion>) -> (r: Diagnosis)
    ensures
        r.text@ == failure_text(stderr@, hint),
        r.hint == hint,
{
    let mut text = "SSH Connection Failed.\n\nSTDERR:\n".to_owned();
    append(&mut text, stderr);
    append(&mut text, "\n\n");
    match &hint {
        Some(s) => {
            append(&mut text, "--- AGENT HINT ---\n");
            append(&mut text, s.message.as_str());
            append(&mut text, "\n");
            match &s.command_hint {
                Some(c) => {
                    append(&mut text, "Suggested Command: `");
                    append(&mut text, c.as_str());
                    append(&mut text, "`\n");
                },
                None => {},
            }
            match &s.script_path {
                Some(p) => {
                    append(&mut text, "Suggested Script: `");
                    append(&mut text, p.as_str());
                    append(&mut text, "`\n");
                },
                None => {},
            }
            assert(text@ =~= failure_text(stderr@, hint));
        },
        None => {
            append(&mut text, "No specific troubleshooting hint found.");
            assert(text@ =~= failure_text(stderr@, hint));
        },
    }
    Diagnosis { text, hint }
}

/// Diagnoses a failed probe: the first pattern, in list order, that matches its
/// stderr gives the hint.
pub fn diagnose_failure(stderr: &str, patterns: &Vec<Pattern>) -> (r: Diagnosis)
    ensures
        r.hint == suggestion_for(patterns@, stderr@),
        r.text@ == failure_text(stderr@, suggestion_for(patterns@, stderr@)),
{
    let hint = match_error_pattern(stderr, patterns);
    report_failure(stderr, hint)
}

} // verus!
