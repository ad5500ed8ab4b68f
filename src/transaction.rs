//! Transaction Submitter: assembling operations into one signed, atomic
//! transaction whose signer set is exactly the one its operations demand.

use vstd::prelude::*;
use solana_program::instruction::{AccountMeta, Instruction};
use solana_sdk::signer::keypair::Keypair;
use solana_sdk::transaction::Transaction;
use crate::identity::Credential;
use crate::operation::{ops_view, Operation, ref_count, signers_exact, signers_match};

verus! {

#[verifier::external_type_specification]
#[verifier::external_body]
pub struct ExTransaction(Transaction);

/// Why a transaction could not be assembled.
#[derive(PartialEq, Eq, Structural, Clone, Copy, Debug)]
pub enum BuildError {
    /// The credentials offered are not exactly the accounts that must sign.
    SignerSetMismatch,
    /// The operations reference more accounts than one message can index.
    TooManyAccounts,
    /// An operation's payload is longer than a message can encode.
    PayloadTooLarge,
}

/// The most account references (plus programs and fee payer) that a
/// message is built from here; a message indexes its keys with one byte.
pub const MAX_MESSAGE_KEYS: usize = 255;

/// The longest payload of one operation: a message encodes each payload's
/// length in a compact 16-bit form.
pub const MAX_PAYLOAD_LEN: usize = 65535;

/// Every payload of `ops` fits a message.
pub open spec fn payloads_fit(ops: Seq<Operation>) -> bool {
    forall|i: int| 0 <= i < ops.len() ==> #[trigger] ops[i].data@.len() <= MAX_PAYLOAD_LEN
}

/// Addresses of `signers`, in order.
pub open spec fn signer_addresses(signers: Seq<&Credential>) -> Seq<Seq<u8>> {
    signers.map_values(|c: &Credential| c.address_spec())
}

/// The serialized message that the ledger's legacy message format compiles
/// from `ops` with fee payer `payer` and freshness token `blockhash`.
pub uninterp spec fn compiled_message(
    ops: Seq<(Seq<u8>, Seq<(Seq<u8>, bool, bool)>, Seq<u8>)>,
    payer: Seq<u8>,
    blockhash: Seq<u8>,
) -> Seq<u8>;

/// The ed25519 signature over `message` by the key grown from `seed`.
pub uninterp spec fn ed25519_signature(seed: Seq<u8>, message: Seq<u8>) -> Seq<u8>;

/// A signed transaction together with its signatures as plain values.
pub struct SignedTransaction {
    /// The transaction, ready for submission.
    pub transaction: Transaction,
    /// Its signatures, one per signing key, in the message's key order.
    pub signatures: Vec<Vec<u8>>,
}

/// Signatures as byte sequences.
pub open spec fn signatures_view(sigs: Seq<Vec<u8>>) -> Seq<Seq<u8>> {
    sigs.map_values(|s: Vec<u8>| s@)
}

/// `sig` is the signature that one of `signers` makes over `message`.
pub open spec fn by_one_of(signers: Seq<&Credential>, sig: Seq<u8>, message: Seq<u8>) -> bool {
    exists|j: int| 0 <= j < signers.len() && sig == ed25519_signature(signers[j].seed_spec(), message)
}

/// `t` is signed by exactly `signers` over the message compiled from `ops`
/// with fee payer `payer` and freshness token `blockhash`: each signature is
/// one that a credential of `signers` makes over that message, and each
/// credential's signature is among them.
pub open spec fn signed_by(
    t: SignedTransaction,
    ops: Seq<Operation>,
    signers: Seq<&Credential>,
    payer: Seq<u8>,
    blockhash: Seq<u8>,
) -> bool {
    let message = compiled_message(ops_view(ops), payer, blockhash);
    let sigs = signatures_view(t.signatures@);
    &&& forall|k: int| 0 <= k < sigs.len() ==> by_one_of(signers, #[trigger] sigs[k], message)
    &&& forall|j: int|
        0 <= j < signers.len() ==> sigs.contains(ed25519_signature(#[trigger] signers[j].seed_spec(), message))
}

/// Relies on solana_sdk's `Transaction::new_signed_with_payer`: it compiles
/// the instructions (built with `Instruction::new_with_bytes`) into a legacy
/// message with `payer` as fee payer and the freshness token `blockhash`,
/// whose serialization (`message_data`) depends on these alone, and puts in
/// `signatures` the deterministic ed25519 signature of every keypair over it,
/// one per signing key. It panics when a keypair's address is not among the
/// message's signing keys, or when a signing key gets no signature, which
/// the first `requires` rules out; it panics when the message indexes more
/// than 255 keys, which the second rules out; and it panics when serializing
/// an instruction whose data is longer than 65535 bytes (`short_vec`), which
/// the third rules out.
#[verifier::external_body]
fn sign_transaction(
    ops: &Vec<Operation>,
    signers: &Vec<&Credential>,
    payer: &[u8; 32],
    blockhash: &[u8; 32],
) -> (r: SignedTransaction)
    requires
        signers_exact(ops@, payer@, signer_addresses(signers@)),
        ref_count(ops@) + ops@.len() + 1 <= MAX_MESSAGE_KEYS,
        payloads_fit(ops@),
    ensures
        forall|j: int|
            0 <= j < signers@.len() ==> signatures_view(r.signatures@).contains(ed25519_signature(
                #[trigger] signers@[j].seed_spec(),
                compiled_message(ops_view(ops@), payer@, blockhash@),
            )),
        forall|k: int|
            0 <= k < r.signatures@.len() ==> by_one_of(
                signers@,
                #[trigger] r.signatures@[k]@,
                compiled_message(ops_view(ops@), payer@, blockhash@),
            ),
{
    let ixs: Vec<_> = ops.iter().map(|o| Instruction::new_with_bytes(o.program.into(), &o.data, o.accounts.iter().map(
        |a| AccountMeta { pubkey: a.address.into(), is_signer: a.signer, is_writable: a.writable },
    ).collect())).collect();
    let keys: Vec<_> = signers.iter().map(|c| c.keypair()).collect();
    let tx = Transaction::new_signed_with_payer(&ixs, Some(&(*payer).into()), &keys[..], (*blockhash).into());
    let signatures = tx.signatures.iter().map(|s| s.as_ref().to_vec()).collect();
    SignedTransaction { transaction: tx, signatures }
}

/// Whether every payload of `ops` fits a message.
fn payloads_within_limit(ops: &Vec<Operation>) -> (r: bool)
    ensures
        r == payloads_fit(ops@),
{
    let mut i: usize = 0;
    while i < ops.len()
        invariant
            i <= ops.len(),
            forall|k: int| 0 <= k < i ==> #[trigger] ops@[k].data@.len() <= MAX_PAYLOAD_LEN,
        decreases ops.len() - i,
    {
        if ops[i].data.len() > MAX_PAYLOAD_LEN {
            return false;
        }
        i = i + 1;
    }
    true
}

/// Counts the account references of `ops`, or `None` once the count,
/// together with the operations and the fee payer, exceeds `MAX_MESSAGE_KEYS`.
fn bounded_key_count(ops: &Vec<Operation>) -> (r: Option<usize>)
    ensures
        r matches Some(n) ==> n == ref_count(ops@) && n + ops@.len() + 1 <= MAX_MESSAGE_KEYS,
        r is None ==> ref_count(ops@) + ops@.len() + 1 > MAX_MESSAGE_KEYS,
{
    let mut n: usize = 0;
    let mut i: usize = 0;
    while i < ops.len()
        invariant
            i <= ops.len(),
            n == ref_count(ops@.subrange(0, i as int)),
            n + i + 1 <= MAX_MESSAGE_KEYS,
        decreases ops.len() - i,
    {
        assert(ops@.subrange(0, i as int + 1).drop_last() =~= ops@.subrange(0, i as int));
        let len = ops[i].accounts.len();
        if n + i + 2 > MAX_MESSAGE_KEYS || len > MAX_MESSAGE_KEYS - 2 - n - i {
            proof {
                lemma_ref_count_prefix(ops@, i as int + 1);
            }
            return None;
        }
        n = n + len;
        i = i + 1;
    }
    assert(ops@.subrange(0, ops@.len() as int) =~= ops@);
    Some(n)
}

/// The references of a prefix never exceed those of the whole.
proof fn lemma_ref_count_prefix(ops: Seq<Operation>, k: int)
    requires
        0 <= k <= ops.len(),
    ensures
        ref_count(ops.subrange(0, k)) <= ref_count(ops),
    decreases ops.len() - k,
{
    if k < ops.len() {
        lemma_ref_count_prefix(ops, k + 1);
        assert(ops.subrange(0, k + 1).drop_last() =~= ops.subrange(0, k));
    } else {
        assert(ops.subrange(0, k) =~= ops);
    }
}

/// Builds and signs one atomic transaction carrying `ops`, paid for by
/// `payer` and valid under the freshness token `blockhash`. It fails with
/// `SignerSetMismatch` exactly when the addresses of `signers` are not the
/// set of accounts that must sign, with `TooManyAccounts` exactly when the
/// operations reference too many accounts for one message, and with
/// `PayloadTooLarge` exactly when a payload is too long for one message;
/// the checks come in the order: accounts, payloads, signers. Otherwise
/// the transaction holds the message compiled from exactly these arguments,
/// signed by the given credentials.
pub fn build_transaction(
    ops: &Vec<Operation>,
    signers: &Vec<&Credential>,
    payer: &[u8; 32],
    blockhash: &[u8; 32],
) -> (r: Result<SignedTransaction, BuildError>)
    ensures
        r matches Err(BuildError::TooManyAccounts) <==> ref_count(ops@) + ops@.len() + 1
            > MAX_MESSAGE_KEYS,
        r matches Err(BuildError::PayloadTooLarge) <==> ref_count(ops@) + ops@.len() + 1
            <= MAX_MESSAGE_KEYS && !payloads_fit(ops@),
        r matches Err(BuildError::SignerSetMismatch) <==> ref_count(ops@) + ops@.len() + 1
            <= MAX_MESSAGE_KEYS && payloads_fit(ops@) && !signers_exact(
            ops@,
            payer@,
            signer_addresses(signers@),
        ),
        r matches Ok(t) ==> signed_by(t, ops@, signers@, payer@, blockhash@),
{
    if bounded_key_count(ops).is_none() {
        return Err(BuildError::TooManyAccounts);
    }
    if !payloads_within_limit(ops) {
        return Err(BuildError::PayloadTooLarge);
    }
    let mut addresses: Vec<[u8; 32]> = Vec::new();
    let mut k: usize = 0;
    while k < signers.len()
        invariant
            k <= signers.len(),
            addresses@.len() == k,
            forall|x: int| 0 <= x < k ==> #[trigger] addresses@[x]@ == signers@[x].address_spec(),
        decreases signers.len() - k,
    {
        let a = signers[k].address();
        addresses.push(a);
        k = k + 1;
    }
    assert(addresses@.map_values(|x: [u8; 32]| x@) =~= signer_addresses(signers@));
    if !signers_match(ops, payer, &addresses) {
        return Err(BuildError::SignerSetMismatch);
    }
    let t = sign_transaction(ops, signers, payer, blockhash);
    proof {
        let message = compiled_message(ops_view(ops@), payer@, blockhash@);
        let sigs = signatures_view(t.signatures@);
        assert forall|k: int| 0 <= k < sigs.len() implies by_one_of(signers@, #[trigger] sigs[k], message) by {
            assert(sigs[k] == t.signatures@[k]@);
        }
    }
    Ok(t)
}

} // verus!
