use vstd::prelude::*;
use vstd::utf8::*;

use crate::hexcode::{hex_digit, hex_lower};
use crate::secret::{ciphertext_for, gcm_sealed, NONCE_LEN};

verus! {

/// A registered machine.
#[derive(Debug, Clone)]
pub struct Machine {
    pub id: Option<i64>,
    pub name: String,
    pub ip_address: String,
    pub purpose: String,
    /// "company" or "personal".
    pub ownership: String,
    pub os_type: String,
    /// "active", "broken" or "maintenance".
    pub status: String,
}

/// A login on one machine; `credential` holds stored (encrypted) text, or the
/// masking sentinel in a listing.
#[derive(Debug, Clone)]
pub struct Account {
    pub id: Option<i64>,
    pub machine_id: i64,
    pub username: String,
    /// "password", "key" or "hardware".
    pub auth_type: String,
    pub credential: String,
}

/// A command that was run on a machine, as recorded.
#[derive(Debug, Clone)]
pub struct CommandLog {
    pub id: i64,
    pub machine_id: i64,
    pub machine_name: String,
    pub username: String,
    pub command: String,
    pub stdout: Option<String>,
    pub stderr: Option<String>,
    pub exit_code: Option<i32>,
    pub timestamp: String,
}

/// A free-text rule bound to one machine.
#[derive(Debug, Clone)]
pub struct Constraint {
    pub id: Option<i64>,
    pub machine_id: i64,
    pub rule_text: String,
}

/// The views of the operator's window.
#[derive(PartialEq, Eq, Structural, Debug, Clone, Copy)]
pub enum Tab {
    Connections,
    Accounts,
    Logs,
    Onboarding,
}

/// What a listing shows in place of every credential.
pub open spec fn masked_credential() -> Seq<char> {
    "[ENCRYPTED/RESTRICTED]"@
}

/// A copy of a string that Verus knows to be equal to it.
pub fn copy_string(s: &String) -> (r: String)
    ensures
        r == *s,
{
    s.clone()
}

/// A copy of an optional string that Verus knows to be equal to it.
pub fn copy_opt_string(s: &Option<String>) -> (r: Option<String>)
    ensures
        r == *s,
{
    match s {
        Some(v) => Some(v.clone()),
        None => None,
    }
}

/// Whether `listed` is `stored` with its credential replaced by the sentinel.
pub open spec fn masks(stored: Account, listed: Account) -> bool {
    &&& listed.id == stored.id
    &&& listed.machine_id == stored.machine_id
    &&& listed.username == stored.username
    &&& listed.auth_type == stored.auth_type
    &&& listed.credential@ == masked_credential()
}

/// The accounts as a listing shows them: every field kept but the
/// credential, which is replaced by the masking sentinel.
pub fn mask_accounts(stored: &Vec<Account>) -> (r: Vec<Account>)
    ensures
        r@.len() == stored@.len(),
        forall|i: int| 0 <= i < r@.len() ==> masks(stored@[i], #[trigger] r@[i]),
{
    let mut r: Vec<Account> = Vec::new();
    let mut i: usize = 0;
    while i < stored.len()
        invariant
            i <= stored@.len(),
            r@.len() == i,
            forall|j: int| 0 <= j < i ==> masks(stored@[j], #[trigger] r@[j]),
        decreases stored@.len() - i,
    {
        let a = &stored[i];
        let sentinel = "[ENCRYPTED/RESTRICTED]".to_owned();
        r.push(
            Account {
                id: a.id,
                machine_id: a.machine_id,
                username: a.username.clone(),
                auth_type: a.auth_type.clone(),
                credential: sentinel,
            },
        );
        i = i + 1;
    }
    r
}

/// The masking sentinel is no stored ciphertext: stored text is hexadecimal and
/// leads with a nonce, and the sentinel begins with a bracket.
pub proof fn lemma_mask_is_no_ciphertext(key: Seq<u8>, nonce: Seq<u8>, plaintext: Seq<char>)
    requires
        nonce.len() == NONCE_LEN,
    ensures
        ciphertext_for(key, nonce, plaintext) != masked_credential(),
{
    reveal_strlit("[ENCRYPTED/RESTRICTED]");
    let c = ciphertext_for(key, nonce, plaintext);
    let f = nonce + gcm_sealed(key, nonce, encode_utf8(plaintext));
    assert(c == hex_lower(f));
    assert(f[0] == nonce[0]);
    assert(c[0] == hex_digit(nonce[0] as int / 16));
    assert(masked_credential()[0] == '[');
}

} // verus!
