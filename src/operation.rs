//! Operations (instructions) and the signer set they demand.

use vstd::prelude::*;
use solana_program::pubkey::Pubkey;

verus! {

/// A reference from an operation to an account.
#[derive(Clone, Copy, Debug)]
pub struct AccountRef {
    /// Address of the referenced account.
    pub address: [u8; 32],
    /// Whether the operation may change the account.
    pub writable: bool,
    /// Whether the account's credential must sign the transaction.
    pub signer: bool,
}

/// A single instruction: a target program, account references, and an
/// opaque payload.
#[derive(Debug)]
pub struct Operation {
    /// Address of the program that executes the operation.
    pub program: [u8; 32],
    /// Accounts the operation reads or writes, in order.
    pub accounts: Vec<AccountRef>,
    /// Payload handed to the program.
    pub data: Vec<u8>,
}

/// An operation as plain values: the program, each reference as
/// (address, signs, writable), and the payload.
pub open spec fn op_view(o: Operation) -> (Seq<u8>, Seq<(Seq<u8>, bool, bool)>, Seq<u8>) {
    (o.program@, o.accounts@.map_values(|a: AccountRef| (a.address@, a.signer, a.writable)), o.data@)
}

/// A list of operations as plain values.
pub open spec fn ops_view(ops: Seq<Operation>) -> Seq<(Seq<u8>, Seq<(Seq<u8>, bool, bool)>, Seq<u8>)> {
    ops.map_values(|o: Operation| op_view(o))
}

/// `n` bytes holding `v` in little-endian order (truncated to `n` bytes).
pub open spec fn le_bytes(v: nat, n: nat) -> Seq<u8>
    decreases n,
{
    if n == 0 {
        seq![]
    } else {
        seq![(v % 256) as u8] + le_bytes(v / 256, (n - 1) as nat)
    }
}

/// Address of the ledger's system program: 32 zero bytes.
pub open spec fn system_program() -> Seq<u8> {
    Seq::new(32, |i: int| 0u8)
}

/// Payload of the system program's account-creation instruction: variant
/// tag 0 as a 4-byte little-endian integer, then the transferred amount and
/// the capacity as 8-byte little-endian integers, then the owner's address.
pub open spec fn create_account_data(lamports: u64, space: u64, owner: Seq<u8>) -> Seq<u8> {
    le_bytes(0, 4) + le_bytes(lamports as nat, 8) + le_bytes(space as nat, 8) + owner
}

/// Relies on solana_program's `system_instruction::create_account`: an
/// instruction for the system program that references the funding account
/// and the new account, both writable and signing, and carries the
/// bincode encoding of `SystemInstruction::CreateAccount`.
#[verifier::external_body]
fn system_create_account(
    from: &[u8; 32],
    to: &[u8; 32],
    lamports: u64,
    space: u64,
    owner: &[u8; 32],
) -> (r: Operation)
    ensures
        r.program@ == system_program(),
        r.accounts@.len() == 2,
        r.accounts@[0].address@ == from@,
        r.accounts@[0].writable && r.accounts@[0].signer,
        r.accounts@[1].address@ == to@,
        r.accounts@[1].writable && r.accounts@[1].signer,
        r.data@ == create_account_data(lamports, space, owner@),
{
    let ix = solana_program::system_instruction::create_account(
        &Pubkey::new_from_array(*from), &Pubkey::new_from_array(*to), lamports, space,
        &Pubkey::new_from_array(*owner),
    );
    let accounts = ix.accounts.iter().map(
        |m| AccountRef { address: m.pubkey.to_bytes(), writable: m.is_writable, signer: m.is_signer },
    ).collect();
    Operation { program: ix.program_id.to_bytes(), accounts, data: ix.data }
}

/// Storage Provisioner: the operation that allocates an account of
/// `capacity` bytes at `account`, owned by `owner`, funded by `payer` with
/// `lamports`. Both `payer` and `account` must sign the carrying transaction.
pub fn account_create(
    payer: &[u8; 32],
    account: &[u8; 32],
    owner: &[u8; 32],
    capacity: u64,
    lamports: u64,
) -> (r: Operation)
    ensures
        r.program@ == system_program(),
        r.accounts@.len() == 2,
        r.accounts@[0].address@ == payer@,
        r.accounts@[0].writable && r.accounts@[0].signer,
        r.accounts@[1].address@ == account@,
        r.accounts@[1].writable && r.accounts@[1].signer,
        r.data@ == create_account_data(lamports, capacity, owner@),
{
    system_create_account(payer, account, lamports, capacity, owner)
}

/// The operation asking `program` to copy `payload` into the storage
/// account `storage`, which is writable and does not sign.
pub fn echo_operation(program: &[u8; 32], storage: &[u8; 32], payload: Vec<u8>) -> (r: Operation)
    ensures
        r.program@ == program@,
        r.accounts@.len() == 1,
        r.accounts@[0].address@ == storage@,
        r.accounts@[0].writable && !r.accounts@[0].signer,
        r.data@ == payload@,
{
    let mut accounts: Vec<AccountRef> = Vec::new();
    accounts.push(AccountRef { address: *storage, writable: true, signer: false });
    Operation { program: *program, accounts, data: payload }
}

/// Whether `a` must sign a transaction carrying `ops` with fee payer
/// `payer`: it is the fee payer, or some reference of some operation marks
/// it as signing.
pub open spec fn required_signer(ops: Seq<Operation>, payer: Seq<u8>, a: Seq<u8>) -> bool {
    a == payer || exists|i: int, j: int|
        0 <= i < ops.len() && 0 <= j < ops[i].accounts@.len() && #[trigger] ops[i].accounts@[j].signer
            && ops[i].accounts@[j].address@ == a
}

/// The addresses of `signers` form exactly the set of required signers:
/// each one is required, and each required address is among them.
pub open spec fn signers_exact(ops: Seq<Operation>, payer: Seq<u8>, signers: Seq<Seq<u8>>) -> bool {
    &&& forall|k: int| 0 <= k < signers.len() ==> required_signer(ops, payer, #[trigger] signers[k])
    &&& forall|a: Seq<u8>| required_signer(ops, payer, a) ==> signers.contains(a)
}

/// Number of account references over all of `ops`.
pub open spec fn ref_count(ops: Seq<Operation>) -> nat
    decreases ops.len(),
{
    if ops.len() == 0 {
        0
    } else {
        ref_count(ops.drop_last()) + ops.last().accounts@.len()
    }
}

/// Whether two addresses are equal.
pub fn same_address(a: &[u8; 32], b: &[u8; 32]) -> (r: bool)
    ensures
        r == (a@ == b@),
{
    let mut i: usize = 0;
    while i < 32
        invariant
            i <= 32,
            a@.len() == 32,
            b@.len() == 32,
            forall|k: int| 0 <= k < i ==> a@[k] == b@[k],
        decreases 32 - i,
    {
        if a[i] != b[i] {
            return false;
        }
        i = i + 1;
    }
    assert(a@ =~= b@);
    true
}

/// Whether `a` occurs in `list`.
pub fn contains_address(list: &Vec<[u8; 32]>, a: &[u8; 32]) -> (r: bool)
    ensures
        r == list@.map_values(|x: [u8; 32]| x@).contains(a@),
{
    let ghost view = list@.map_values(|x: [u8; 32]| x@);
    let mut i: usize = 0;
    while i < list.len()
        invariant
            i <= list.len(),
            view == list@.map_values(|x: [u8; 32]| x@),
            forall|k: int| 0 <= k < i ==> view[k] != a@,
        decreases list.len() - i,
    {
        if same_address(&list[i], a) {
            assert(view[i as int] == a@);
            return true;
        }
        i = i + 1;
    }
    false
}

/// Whether `a` must sign a transaction carrying `ops` with fee payer `payer`.
pub fn is_required_signer(ops: &Vec<Operation>, payer: &[u8; 32], a: &[u8; 32]) -> (r: bool)
    ensures
        r == required_signer(ops@, payer@, a@),
{
    if same_address(payer, a) {
        return true;
    }
    let mut i: usize = 0;
    while i < ops.len()
        invariant
            i <= ops.len(),
            a@ != payer@,
            forall|i2: int, j2: int|
                0 <= i2 < i && 0 <= j2 < ops@[i2].accounts@.len() && #[trigger] ops@[i2].accounts@[j2].signer
                    ==> ops@[i2].accounts@[j2].address@ != a@,
        decreases ops.len() - i,
    {
        let refs = &ops[i].accounts;
        let mut j: usize = 0;
        while j < refs.len()
            invariant
                i < ops.len(),
                j <= refs.len(),
                refs@ == ops@[i as int].accounts@,
                forall|i2: int, j2: int|
                    0 <= i2 < i && 0 <= j2 < ops@[i2].accounts@.len() && #[trigger] ops@[i2].accounts@[j2].signer
                        ==> ops@[i2].accounts@[j2].address@ != a@,
                forall|j2: int| 0 <= j2 < j && #[trigger] refs@[j2].signer ==> refs@[j2].address@ != a@,
            decreases refs.len() - j,
        {
            if refs[j].signer && same_address(&refs[j].address, a) {
                assert(ops@[i as int].accounts@[j as int].signer);
                return true;
            }
            j = j + 1;
        }
        i = i + 1;
    }
    false
}

/// Whether `signers` is exactly the set of addresses that must sign a
/// transaction carrying `ops` with fee payer `payer` (repetitions allowed).
pub fn signers_match(ops: &Vec<Operation>, payer: &[u8; 32], signers: &Vec<[u8; 32]>) -> (r: bool)
    ensures
        r == signers_exact(ops@, payer@, signers@.map_values(|x: [u8; 32]| x@)),
{
    let ghost view = signers@.map_values(|x: [u8; 32]| x@);
    let mut k: usize = 0;
    while k < signers.len()
        invariant
            k <= signers.len(),
            view == signers@.map_values(|x: [u8; 32]| x@),
            forall|k2: int| 0 <= k2 < k ==> required_signer(ops@, payer@, #[trigger] view[k2]),
        decreases signers.len() - k,
    {
        if !is_required_signer(ops, payer, &signers[k]) {
            assert(!required_signer(ops@, payer@, view[k as int]));
            return false;
        }
        k = k + 1;
    }
    if !contains_address(signers, payer) {
        assert(required_signer(ops@, payer@, payer@));
        return false;
    }
    let mut i: usize = 0;
    while i < ops.len()
        invariant
            i <= ops.len(),
            view == signers@.map_values(|x: [u8; 32]| x@),
            forall|i2: int, j2: int|
                0 <= i2 < i && 0 <= j2 < ops@[i2].accounts@.len() && #[trigger] ops@[i2].accounts@[j2].signer
                    ==> view.contains(ops@[i2].accounts@[j2].address@),
        decreases ops.len() - i,
    {
        let refs = &ops[i].accounts;
        let mut j: usize = 0;
        while j < refs.len()
            invariant
                i < ops.len(),
                j <= refs.len(),
                refs@ == ops@[i as int].accounts@,
                view == signers@.map_values(|x: [u8; 32]| x@),
                forall|i2: int, j2: int|
                    0 <= i2 < i && 0 <= j2 < ops@[i2].accounts@.len() && #[trigger] ops@[i2].accounts@[j2].signer
                        ==> view.contains(ops@[i2].accounts@[j2].address@),
                forall|j2: int| 0 <= j2 < j && #[trigger] refs@[j2].signer ==> view.contains(refs@[j2].address@),
            decreases refs.len() - j,
        {
            if refs[j].signer && !contains_address(signers, &refs[j].address) {
                assert(required_signer(ops@, payer@, refs@[j as int].address@)) by {
                    assert(ops@[i as int].accounts@[j as int].signer);
                }
                return false;
            }
            j = j + 1;
        }
        i = i + 1;
    }
    assert forall|a: Seq<u8>| required_signer(ops@, payer@, a) implies view.contains(a) by {
        if a != payer@ {
            let (i2, j2) = choose|i2: int, j2: int|
                0 <= i2 < ops@.len() && 0 <= j2 < ops@[i2].accounts@.len() && #[trigger] ops@[i2].accounts@[j2].signer
                    && ops@[i2].accounts@[j2].address@ == a;
            assert(view.contains(ops@[i2].accounts@[j2].address@));
        }
    }
    true
}

} // verus!
