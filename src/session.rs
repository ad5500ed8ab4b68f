//! Echo Session: the request/response loop under two provisioning policies.
//!
//! The session alternates between awaiting input and awaiting the
//! confirmation of the transaction it asked for. [`EchoSession::submit_line`]
//! turns one input line into the operations of one transaction and the
//! storage account to read back; [`EchoSession::complete`] returns to
//! awaiting input once the round trip is done.

use vstd::prelude::*;
use crate::identity::{keys_gen, Credential};
use crate::operation::{
    account_create, create_account_data, echo_operation, system_program, Operation,
};
use crate::payload::{echo_result, fit_to_capacity, fixed_payload, trim_line_end, trim_newlines};

verus! {

/// How storage for echoes is provided.
#[derive(Clone, Copy, Debug)]
pub enum Provisioner {
    /// One storage account of `capacity` bytes, allocated once; every
    /// payload is cut or zero-padded to that capacity.
    FixedSlot { storage: [u8; 32], capacity: usize },
    /// A new storage account sized to each payload, allocated in the same
    /// transaction as the echo.
    DynamicSlot,
}

/// The two states of a session.
#[derive(PartialEq, Eq, Structural, Clone, Copy, Debug)]
pub enum SessionState {
    AwaitingInput,
    AwaitingConfirmation,
}

/// What one input line asks of the network.
#[derive(Debug)]
pub struct EchoRequest {
    /// The operations of the one transaction to submit.
    pub operations: Vec<Operation>,
    /// The storage account to read back once the transaction is confirmed.
    pub storage: [u8; 32],
    /// Whether the storage account is new, so that its credential co-signs.
    pub creates_storage: bool,
}

/// `op` asks `program` to copy `payload` into `storage`.
pub open spec fn is_echo(op: Operation, program: Seq<u8>, storage: Seq<u8>, payload: Seq<u8>) -> bool {
    &&& op.program@ == program
    &&& op.accounts@.len() == 1
    &&& op.accounts@[0].address@ == storage
    &&& op.accounts@[0].writable && !op.accounts@[0].signer
    &&& op.data@ == payload
}

/// `op` allocates `capacity` bytes at `account` for `owner`, funded by `payer`.
pub open spec fn is_allocation(
    op: Operation,
    payer: Seq<u8>,
    account: Seq<u8>,
    owner: Seq<u8>,
    capacity: u64,
    lamports: u64,
) -> bool {
    &&& op.program@ == system_program()
    &&& op.accounts@.len() == 2
    &&& op.accounts@[0].address@ == payer
    &&& op.accounts@[0].writable && op.accounts@[0].signer
    &&& op.accounts@[1].address@ == account
    &&& op.accounts@[1].writable && op.accounts@[1].signer
    &&& op.data@ == create_account_data(lamports, capacity, owner)
}

/// Storage Provisioner: a freshly generated credential for a new storage
/// account, and the operation that allocates `capacity` bytes there for
/// `owner`, funded by `payer` with `lamports`. The new credential must
/// co-sign the transaction that carries the operation.
pub fn provision(payer: &Credential, capacity: u64, owner: &[u8; 32], lamports: u64) -> (r: (
    Operation,
    Credential,
))
    ensures
        r.1.wf(),
        is_allocation(r.0, payer.address_spec(), r.1.address_spec(), owner@, capacity, lamports),
{
    let account = keys_gen();
    let op = account_create(&payer.address(), &account.address(), owner, capacity, lamports);
    (op, account)
}

/// An echo session for `program`, paid for by `payer`.
pub struct EchoSession {
    provisioner: Provisioner,
    program: [u8; 32],
    payer: [u8; 32],
    state: SessionState,
}

impl EchoSession {
    pub closed spec fn provisioner_spec(&self) -> Provisioner {
        self.provisioner
    }

    pub closed spec fn program_spec(&self) -> Seq<u8> {
        self.program@
    }

    pub closed spec fn payer_spec(&self) -> Seq<u8> {
        self.payer@
    }

    pub closed spec fn state_spec(&self) -> SessionState {
        self.state
    }

    /// A session awaiting its first line.
    pub fn new(provisioner: Provisioner, program: [u8; 32], payer: [u8; 32]) -> (r: EchoSession)
        ensures
            r.provisioner_spec() == provisioner,
            r.program_spec() == program@,
            r.payer_spec() == payer@,
            r.state_spec() == SessionState::AwaitingInput,
    {
        EchoSession { provisioner, program, payer, state: SessionState::AwaitingInput }
    }

    /// The current state.
    pub fn state(&self) -> (r: SessionState)
        ensures
            r == self.state_spec(),
    {
        self.state
    }

    /// Takes one input line (trailing `'\n'` bytes are dropped) and moves to
    /// awaiting confirmation. With a fixed slot the request is one echo of
    /// the line cut or zero-padded to the slot's capacity; with dynamic
    /// slots it is the allocation of `fresh_storage`, sized exactly to the
    /// line and funded with `lamports`, followed by the echo of the line
    /// into it, both in one transaction.
    pub fn submit_line(&mut self, line: &[u8], fresh_storage: &[u8; 32], lamports: u64) -> (r:
        EchoRequest)
        requires
            old(self).state_spec() == SessionState::AwaitingInput,
        ensures
            final(self).state_spec() == SessionState::AwaitingConfirmation,
            final(self).provisioner_spec() == old(self).provisioner_spec(),
            final(self).program_spec() == old(self).program_spec(),
            final(self).payer_spec() == old(self).payer_spec(),
            ({
                let s = trim_newlines(line@);
                match old(self).provisioner_spec() {
                    Provisioner::FixedSlot { storage, capacity } => {
                        &&& r.operations@.len() == 1
                        &&& is_echo(r.operations@[0], old(self).program_spec(), storage@, fit_to_capacity(s, capacity as nat))
                        &&& r.storage == storage
                        &&& !r.creates_storage
                    },
                    Provisioner::DynamicSlot => {
                        &&& r.operations@.len() == 2
                        &&& is_allocation(r.operations@[0], old(self).payer_spec(), fresh_storage@,
                            old(self).program_spec(), s.len() as u64, lamports)
                        &&& is_echo(r.operations@[1], old(self).program_spec(), fresh_storage@, s)
                        &&& r.storage == *fresh_storage
                        &&& r.creates_storage
                    },
                }
            }),
    {
        let text = trim_line_end(line);
        self.state = SessionState::AwaitingConfirmation;
        match self.provisioner {
            Provisioner::FixedSlot { storage, capacity } => {
                let payload = fixed_payload(&text, capacity);
                let mut operations: Vec<Operation> = Vec::new();
                operations.push(echo_operation(&self.program, &storage, payload));
                EchoRequest { operations, storage, creates_storage: false }
            },
            Provisioner::DynamicSlot => {
                let len = text.len() as u64;
                let alloc = account_create(&self.payer, fresh_storage, &self.program, len, lamports);
                let echo = echo_operation(&self.program, fresh_storage, text);
                let mut operations: Vec<Operation> = Vec::new();
                operations.push(alloc);
                operations.push(echo);
                EchoRequest { operations, storage: *fresh_storage, creates_storage: true }
            },
        }
    }

    /// Marks the round trip as done: the session awaits the next line.
    pub fn complete(&mut self)
        requires
            old(self).state_spec() == SessionState::AwaitingConfirmation,
        ensures
            final(self).state_spec() == SessionState::AwaitingInput,
            final(self).provisioner_spec() == old(self).provisioner_spec(),
            final(self).program_spec() == old(self).program_spec(),
            final(self).payer_spec() == old(self).payer_spec(),
    {
        self.state = SessionState::AwaitingInput;
    }
}

/// Fixed-slot round trip: an input `s` echoed through a slot of `capacity`
/// bytes is stored without error, and what is read back is `s` followed by
/// zero bytes up to the capacity when `s` fits, or the first `capacity`
/// bytes of `s` when it does not.
pub proof fn fixed_round_trip(s: Seq<u8>, capacity: nat)
    ensures
        echo_result(capacity, fit_to_capacity(s, capacity)) == Some(fit_to_capacity(s, capacity)),
        s.len() <= capacity ==> fit_to_capacity(s, capacity) == s + Seq::new(
            (capacity - s.len()) as nat,
            |i: int| 0u8,
        ),
        s.len() > capacity ==> fit_to_capacity(s, capacity) == s.subrange(0, capacity as int),
{
    if s.len() <= capacity {
        assert(fit_to_capacity(s, capacity) =~= s + Seq::new((capacity - s.len()) as nat, |i: int| 0u8));
    } else {
        assert(fit_to_capacity(s, capacity) =~= s.subrange(0, capacity as int));
    }
}

/// Dynamic-slot round trip: for a request made of an allocation sized to
/// `s` and an echo of `s` into the allocated account (the shape that
/// [`EchoSession::submit_line`] gives with dynamic slots), the echo fits
/// the new account exactly, so it is stored without error and read back as
/// exactly `s`; this holds for every length, the empty input included.
pub proof fn dynamic_round_trip(
    alloc: Operation,
    echo: Operation,
    payer: Seq<u8>,
    storage: Seq<u8>,
    program: Seq<u8>,
    s: Seq<u8>,
    lamports: u64,
)
    requires
        s.len() <= u64::MAX,
        is_allocation(alloc, payer, storage, program, s.len() as u64, lamports),
        is_echo(echo, program, storage, s),
    ensures
        echo_result((s.len() as u64) as nat, echo.data@) == Some(s),
{
}

} // verus!
