use vstd::prelude::*;

use crate::model::{copy_string, Account};
use crate::hexcode::hex_lower;
use crate::secret::{decrypt, decryption, decrypts, encrypt, sealable, CryptoError, MasterKey};

verus! {

/// Whether `after` is what migration makes of the stored credentials `before`
/// under `key`: the same accounts in the same order, a value that decrypts left
/// as it is, and any other value taken for legacy plaintext and replaced by its
/// encryption.
pub open spec fn migrated(key: Seq<u8>, before: Seq<(i64, String)>, after: Seq<(i64, String)>) -> bool {
    &&& after.len() == before.len()
    &&& forall|i: int|
        #![trigger after[i]]
        0 <= i < before.len() ==> {
            &&& after[i].0 == before[i].0
            &&& if decrypts(key, before[i].1@) {
                after[i] == before[i]
            } else {
                decryption(key, after[i].1@) == Ok::<Seq<char>, CryptoError>(before[i].1@)
            }
        }
}

/// Whether migration can encrypt every value that does not decrypt.
pub open spec fn migratable(key: Seq<u8>, rows: Seq<(i64, String)>) -> bool {
    forall|i: int| 0 <= i < rows.len() ==> decrypts(key, #[trigger] rows[i].1@) || sealable(rows[i].1@)
}

/// Brings every stored credential under `key`: a value that decrypts is kept, any
/// other is encrypted as legacy plaintext. Fails, as a whole, only when such a
/// value is too long to encrypt.
pub fn migrate_credentials(key: &MasterKey, rows: &Vec<(i64, String)>) -> (r: Result<
    Vec<(i64, String)>,
    CryptoError,
>)
    ensures
        r is Ok <==> migratable(key@, rows@),
        r matches Ok(after) ==> migrated(key@, rows@, after@),
        r matches Err(e) ==> e == CryptoError::TooLong,
{
    let mut after: Vec<(i64, String)> = Vec::new();
    let mut i: usize = 0;
    while i < rows.len()
        invariant
            i <= rows@.len(),
            migratable(key@, rows@.subrange(0, i as int)),
            migrated(key@, rows@.subrange(0, i as int), after@),
        decreases rows@.len() - i,
    {
        let id = rows[i].0;
        let stored = &rows[i].1;
        let value = match decrypt(key, stored.as_str()) {
            Ok(_) => copy_string(stored),
            Err(_) => match encrypt(key, stored.as_str()) {
                Ok(c) => c,
                Err(e) => {
                    assert(!migratable(key@, rows@) ) by {
                        assert(!decrypts(key@, rows@[i as int].1@));
                    }
                    return Err(e);
                },
            },
        };
        after.push((id, value));
        i = i + 1;
        assert(migratable(key@, rows@.subrange(0, i as int))) by {
            assert forall|j: int| 0 <= j < i implies decrypts(key@, #[trigger] rows@.subrange(0, i as int)[j].1@)
                || sealable(rows@.subrange(0, i as int)[j].1@) by {
                if j < i - 1 {
                    assert(rows@.subrange(0, i as int)[j] == rows@.subrange(0, i - 1)[j]);
                }
            }
        }
        assert(migrated(key@, rows@.subrange(0, i as int), after@)) by {
            assert forall|j: int| 0 <= j < i implies #[trigger] after@[j].0 == rows@.subrange(0, i as int)[j].0 by {
                if j < i - 1 {
                    assert(rows@.subrange(0, i as int)[j] == rows@.subrange(0, i - 1)[j]);
                }
            }
            assert forall|j: int| 0 <= j < i implies (if decrypts(key@, rows@.subrange(0, i as int)[j].1@) {
                #[trigger] after@[j] == rows@.subrange(0, i as int)[j]
            } else {
                decryption(key@, after@[j].1@) == Ok::<Seq<char>, CryptoError>(rows@.subrange(0, i as int)[j].1@)
            }) by {
                if j < i - 1 {
                    assert(rows@.subrange(0, i as int)[j] == rows@.subrange(0, i - 1)[j]);
                }
            }
        }
    }
    assert(rows@.subrange(0, rows@.len() as int) =~= rows@);
    Ok(after)
}

/// Migration is idempotent: once every value has been brought under the key, a
/// second run changes nothing.
pub proof fn lemma_migration_idempotent(
    key: Seq<u8>,
    rows: Seq<(i64, String)>,
    once: Seq<(i64, String)>,
    twice: Seq<(i64, String)>,
)
    requires
        migrated(key, rows, once),
        migrated(key, once, twice),
    ensures
        twice == once,
{
    assert forall|i: int| 0 <= i < once.len() implies twice[i] == once[i] by {
        if decrypts(key, rows[i].1@) {
            assert(once[i] == rows[i]);
        }
        assert(decrypts(key, once[i].1@));
    }
    assert(twice =~= once);
}

/// The accounts whose stored value a migration changed, with their new values:
/// the rows to write back.
pub fn changed_rows(before: &Vec<(i64, String)>, after: &Vec<(i64, String)>) -> (r: Vec<
    (i64, String),
>)
    requires
        after@.len() == before@.len(),
    ensures
        r@ == changed_spec(before@, after@),
{
    let mut r: Vec<(i64, String)> = Vec::new();
    let mut i: usize = 0;
    while i < after.len()
        invariant
            i <= after@.len() == before@.len(),
            r@ == changed_spec(before@.subrange(0, i as int), after@.subrange(0, i as int)),
        decreases after@.len() - i,
    {
        let differs = after[i].1 != before[i].1;
        if differs {
            r.push((after[i].0, copy_string(&after[i].1)));
        }
        i = i + 1;
        assert(before@.subrange(0, i as int).drop_last() =~= before@.subrange(0, i - 1));
        assert(after@.subrange(0, i as int).drop_last() =~= after@.subrange(0, i - 1));
    }
    assert(before@.subrange(0, i as int) =~= before@);
    assert(after@.subrange(0, i as int) =~= after@);
    r
}

/// The rows of `after` whose value differs from the row at the same place in
/// `before`, in order.
pub open spec fn changed_spec(before: Seq<(i64, String)>, after: Seq<(i64, String)>) -> Seq<(i64, String)>
    decreases after.len(),
{
    if after.len() == 0 || before.len() != after.len() {
        Seq::empty()
    } else {
        let rest = changed_spec(before.drop_last(), after.drop_last());
        if after.last().1@ != before.last().1@ {
            rest.push(after.last())
        } else {
            rest
        }
    }
}

/// Why a rotation stopped before anything was written: the account whose
/// credential could not be carried over, and what went wrong with it.
#[derive(Debug, Clone, Copy, PartialEq, Eq, Structural)]
pub struct RotationError {
    pub account_id: i64,
    pub cause: CryptoError,
}

/// Whether a stored value can be carried from `old` to a new key: it decrypts
/// under `old` to a plaintext that can be encrypted again.
pub open spec fn carries_over(old: Seq<u8>, v: Seq<char>) -> bool {
    decryption(old, v) matches Ok(p) && sealable(p)
}

/// Whether every stored value can be carried over from `old`.
pub open spec fn rotatable(old: Seq<u8>, rows: Seq<(i64, String)>) -> bool {
    forall|i: int| 0 <= i < rows.len() ==> carries_over(old, #[trigger] rows[i].1@)
}

/// What stops a value that cannot be carried over.
pub open spec fn failure_cause(old: Seq<u8>, v: Seq<char>) -> CryptoError {
    match decryption(old, v) {
        Err(c) => c,
        Ok(_) => CryptoError::TooLong,
    }
}

/// Whether `after` holds, account by account, the plaintexts of `before` under
/// `old`, now encrypted under `new`.
pub open spec fn reencrypted(
    old: Seq<u8>,
    new: Seq<u8>,
    before: Seq<(i64, String)>,
    after: Seq<(i64, String)>,
) -> bool {
    &&& after.len() == before.len()
    &&& forall|i: int|
        #![trigger after[i]]
        0 <= i < before.len() ==> {
            &&& after[i].0 == before[i].0
            &&& decrypts(old, before[i].1@)
            &&& decryption(new, after[i].1@) == decryption(old, before[i].1@)
        }
}

/// Re-encrypts every stored credential from `old` to `new`. The first value that
/// cannot be carried over stops the whole operation, naming its account.
pub fn reencrypt_credentials(old: &MasterKey, new: &MasterKey, rows: &Vec<(i64, String)>) -> (r: Result<
    Vec<(i64, String)>,
    RotationError,
>)
    ensures
        r is Ok <==> rotatable(old@, rows@),
        r matches Ok(after) ==> reencrypted(old@, new@, rows@, after@),
        r matches Err(e) ==> exists|i: int|
            0 <= i < rows@.len() && rotatable(old@, rows@.subrange(0, i)) && !carries_over(
                old@,
                #[trigger] rows@[i].1@,
            ) && e.account_id == rows@[i].0 && e.cause == failure_cause(old@, rows@[i].1@),
{
    let mut after: Vec<(i64, String)> = Vec::new();
    let mut i: usize = 0;
    while i < rows.len()
        invariant
            i <= rows@.len(),
            rotatable(old@, rows@.subrange(0, i as int)),
            reencrypted(old@, new@, rows@.subrange(0, i as int), after@),
        decreases rows@.len() - i,
    {
        let id = rows[i].0;
        let plaintext = match decrypt(old, rows[i].1.as_str()) {
            Ok(p) => p,
            Err(e) => {
                assert(!carries_over(old@, rows@[i as int].1@));
                assert(!rotatable(old@, rows@));
                return Err(RotationError { account_id: id, cause: e });
            },
        };
        let value = match encrypt(new, plaintext.as_str()) {
            Ok(c) => c,
            Err(e) => {
                assert(!carries_over(old@, rows@[i as int].1@));
                assert(!rotatable(old@, rows@));
                return Err(RotationError { account_id: id, cause: e });
            },
        };
        after.push((id, value));
        i = i + 1;
        assert forall|j: int| 0 <= j < i implies #[trigger] rows@.subrange(0, i as int)[j] == rows@[j] by {}
        assert forall|j: int| 0 <= j < i - 1 implies #[trigger] rows@.subrange(0, i - 1)[j] == rows@[j] by {}
        assert(rotatable(old@, rows@.subrange(0, i as int))) by {
            assert forall|j: int| 0 <= j < i implies carries_over(old@, #[trigger] rows@.subrange(0, i as int)[j].1@) by {
                if j < i - 1 {
                    assert(rows@.subrange(0, i - 1)[j] == rows@[j]);
                }
            }
        }
    }
    assert(rows@.subrange(0, rows@.len() as int) =~= rows@);
    Ok(after)
}

/// Where a key rotation stands once the re-encrypted values have been staged in
/// one open transaction.
#[derive(Debug, Clone, Copy, PartialEq, Eq, Structural)]
pub enum RotationPhase {
    /// Staged, not yet committed.
    Staged,
    /// Committed; the new key is not yet in the credential store.
    Committed,
    /// Committed and stored; the new key is the active one.
    Finished,
    /// The commit failed: nothing changed.
    Aborted,
    /// Committed, but the credential store refused the new key.
    Stranded,
}

/// What the caller is to do next in a rotation.
pub enum RotationAction {
    /// Drop the transaction; the old key stays active.
    Abandon,
    /// Write this hexadecimal key into the credential store.
    StoreKey(String),
    /// Make the new key the active one.
    SwapKey,
    /// Show this hexadecimal key to the operator, who must keep it by hand.
    ReportKey(String),
}

/// The ordering of a key rotation after its values have been staged: commit,
/// then store the new key, then swap it in.
pub struct KeyRotation {
    pub phase: RotationPhase,
    pub old_key: MasterKey,
    pub new_key: MasterKey,
}

impl KeyRotation {
    /// The key that encrypt and decrypt use.
    pub open spec fn active_key(self) -> Seq<u8> {
        if self.phase == RotationPhase::Finished {
            self.new_key@
        } else {
            self.old_key@
        }
    }

    /// The key under which the stored credentials are.
    pub open spec fn store_key(self) -> Seq<u8> {
        match self.phase {
            RotationPhase::Staged | RotationPhase::Aborted => self.old_key@,
            _ => self.new_key@,
        }
    }

    /// A rotation from `old_key` to `new_key` whose values are staged.
    pub fn begin(old_key: MasterKey, new_key: MasterKey) -> (r: KeyRotation)
        ensures
            r.phase == RotationPhase::Staged,
            r.old_key == old_key,
            r.new_key == new_key,
            r.active_key() == old_key@,
            r.store_key() == old_key@,
    {
        KeyRotation { phase: RotationPhase::Staged, old_key, new_key }
    }

    /// Takes the outcome of the commit. A failed commit leaves the stored values
    /// and the active key as they were; a successful one asks for the new key to
    /// be stored.
    pub fn on_commit(&mut self, committed: bool) -> (a: RotationAction)
        requires
            old(self).phase == RotationPhase::Staged,
        ensures
            final(self).old_key == old(self).old_key,
            final(self).new_key == old(self).new_key,
            committed ==> final(self).phase == RotationPhase::Committed,
            committed ==> (a matches RotationAction::StoreKey(h) && h@ == hex_lower(old(self).new_key@)),
            !committed ==> final(self).phase == RotationPhase::Aborted && a is Abandon,
            !committed ==> final(self).active_key() == old(self).old_key@,
            !committed ==> final(self).store_key() == old(self).old_key@,
            committed ==> final(self).active_key() == old(self).old_key@,
            committed ==> final(self).store_key() == old(self).new_key@,
    {
        if committed {
            self.phase = RotationPhase::Committed;
            RotationAction::StoreKey(self.new_key.to_hex())
        } else {
            self.phase = RotationPhase::Aborted;
            RotationAction::Abandon
        }
    }

    /// Takes the outcome of storing the new key. Once stored, the new key becomes
    /// the active one; otherwise the operator is shown the new key, the only copy
    /// left outside memory.
    pub fn on_store(&mut self, stored: bool) -> (a: RotationAction)
        requires
            old(self).phase == RotationPhase::Committed,
        ensures
            final(self).old_key == old(self).old_key,
            final(self).new_key == old(self).new_key,
            final(self).store_key() == old(self).new_key@,
            stored ==> final(self).phase == RotationPhase::Finished && a is SwapKey,
            stored ==> final(self).active_key() == old(self).new_key@,
            !stored ==> final(self).phase == RotationPhase::Stranded,
            !stored ==> (a matches RotationAction::ReportKey(h) && h@ == hex_lower(old(self).new_key@)),
            !stored ==> final(self).active_key() == old(self).old_key@,
    {
        if stored {
            self.phase = RotationPhase::Finished;
            RotationAction::SwapKey
        } else {
            self.phase = RotationPhase::Stranded;
            RotationAction::ReportKey(self.new_key.to_hex())
        }
    }
}

/// The account as it is stored: its credential encrypted under `key`, every
/// other field kept.
pub fn seal_account(key: &MasterKey, account: &Account) -> (r: Result<Account, CryptoError>)
    ensures
        r is Ok <==> sealable(account.credential@),
        r matches Err(e) ==> e == CryptoError::TooLong,
        r matches Ok(a) ==> {
            &&& a.id == account.id
            &&& a.machine_id == account.machine_id
            &&& a.username == account.username
            &&& a.auth_type == account.auth_type
            &&& decryption(key@, a.credential@) == Ok::<Seq<char>, CryptoError>(account.credential@)
            &&& a.credential@ != account.credential@
        },
{
    let credential = encrypt(key, account.credential.as_str())?;
    Ok(
        Account {
            id: account.id,
            machine_id: account.machine_id,
            username: copy_string(&account.username),
            auth_type: copy_string(&account.auth_type),
            credential,
        },
    )
}

} // verus!
