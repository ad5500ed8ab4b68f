use echo_client::identity::Credential;
use solana_sdk::signer::Signer;
use echo_client::operation::{
    account_create, contains_address, echo_operation, is_required_signer, same_address,
    signers_match, AccountRef, Operation,
};
use echo_client::payload::{echo_store, fixed_payload, trim_line_end, EchoError};
use echo_client::session::{provision, EchoSession, Provisioner, SessionState};
use echo_client::transaction::{build_transaction, BuildError};

const PROGRAM: [u8; 32] = [9u8; 32];
const PAYER: [u8; 32] = [1u8; 32];
const STORE: [u8; 32] = [2u8; 32];

#[test]
fn trim_drops_trailing_newlines_only() {
    assert_eq!(trim_line_end(b"hello\n"), b"hello".to_vec());
    assert_eq!(trim_line_end(b"a\nb\n\n"), b"a\nb".to_vec());
    assert_eq!(trim_line_end(b"\n"), Vec::<u8>::new());
    assert_eq!(trim_line_end(b"plain"), b"plain".to_vec());
}

#[test]
fn fixed_payload_pads_with_zeros() {
    assert_eq!(fixed_payload(b"hi", 5), vec![b'h', b'i', 0, 0, 0]);
    assert_eq!(fixed_payload(b"", 3), vec![0, 0, 0]);
}

#[test]
fn fixed_payload_truncates_long_lines() {
    let line = vec![b'x'; 100];
    let p = fixed_payload(&line, 78);
    assert_eq!(p.len(), 78);
    assert_eq!(p, vec![b'x'; 78]);
}

#[test]
fn echo_store_copies_matching_payload() {
    let mut slot = vec![0u8; 5];
    assert_eq!(echo_store(&mut slot, b"hello"), Ok(()));
    assert_eq!(slot, b"hello".to_vec());
    let mut empty: Vec<u8> = Vec::new();
    assert_eq!(echo_store(&mut empty, b""), Ok(()));
    assert!(empty.is_empty());
}

#[test]
fn echo_store_rejects_capacity_mismatch() {
    let mut slot = vec![7u8; 4];
    assert_eq!(echo_store(&mut slot, b"hello"), Err(EchoError::CapacityMismatch));
    assert_eq!(slot, vec![7u8; 4]);
}

#[test]
fn account_create_encodes_system_instruction() {
    let op = account_create(&PAYER, &STORE, &PROGRAM, 78, 1_000);
    assert_eq!(op.program, [0u8; 32]);
    assert_eq!(op.accounts.len(), 2);
    assert_eq!(op.accounts[0].address, PAYER);
    assert!(op.accounts[0].signer && op.accounts[0].writable);
    assert_eq!(op.accounts[1].address, STORE);
    assert!(op.accounts[1].signer && op.accounts[1].writable);
    let mut data = vec![0u8, 0, 0, 0];
    data.extend_from_slice(&1_000u64.to_le_bytes());
    data.extend_from_slice(&78u64.to_le_bytes());
    data.extend_from_slice(&PROGRAM);
    assert_eq!(op.data, data);
}

#[test]
fn echo_operation_references_storage_without_signature() {
    let op = echo_operation(&PROGRAM, &STORE, b"abc".to_vec());
    assert_eq!(op.program, PROGRAM);
    assert_eq!(op.accounts.len(), 1);
    assert_eq!(op.accounts[0].address, STORE);
    assert!(op.accounts[0].writable && !op.accounts[0].signer);
    assert_eq!(op.data, b"abc".to_vec());
}

#[test]
fn address_comparisons() {
    assert!(same_address(&PAYER, &[1u8; 32]));
    let mut other = PAYER;
    other[31] = 0;
    assert!(!same_address(&PAYER, &other));
    assert!(contains_address(&vec![STORE, PAYER], &PAYER));
    assert!(!contains_address(&vec![STORE], &PAYER));
}

#[test]
fn required_signers_are_payer_and_marked_accounts() {
    let ops = vec![account_create(&PAYER, &STORE, &PROGRAM, 5, 1)];
    assert!(is_required_signer(&ops, &[3u8; 32], &PAYER));
    assert!(is_required_signer(&ops, &[3u8; 32], &[3u8; 32]));
    assert!(is_required_signer(&ops, &PAYER, &STORE));
    assert!(!is_required_signer(&ops, &PAYER, &PROGRAM));
    let echo = vec![echo_operation(&PROGRAM, &STORE, vec![1])];
    assert!(!is_required_signer(&echo, &PAYER, &STORE));
}

#[test]
fn signer_set_must_match_exactly() {
    let ops = vec![
        account_create(&PAYER, &STORE, &PROGRAM, 5, 1),
        echo_operation(&PROGRAM, &STORE, b"hello".to_vec()),
    ];
    assert!(signers_match(&ops, &PAYER, &vec![PAYER, STORE]));
    assert!(signers_match(&ops, &PAYER, &vec![STORE, PAYER, PAYER]));
    assert!(!signers_match(&ops, &PAYER, &vec![PAYER]));
    assert!(!signers_match(&ops, &PAYER, &vec![PAYER, STORE, PROGRAM]));
    let echo = vec![echo_operation(&PROGRAM, &STORE, b"x".to_vec())];
    assert!(signers_match(&echo, &PAYER, &vec![PAYER]));
    assert!(!signers_match(&echo, &PAYER, &vec![PAYER, STORE]));
}

#[test]
fn build_transaction_signs_with_exact_signer_set() {
    let payer = Credential::from_seed([11u8; 32]);
    let store = Credential::from_seed([12u8; 32]);
    let ops = vec![
        account_create(&payer.address(), &store.address(), &PROGRAM, 5, 1),
        echo_operation(&PROGRAM, &store.address(), b"hello".to_vec()),
    ];
    let signed = build_transaction(&ops, &vec![&payer, &store], &payer.address(), &[4u8; 32]).unwrap();
    let tx = &signed.transaction;
    assert_eq!(tx.signatures.len(), 2);
    assert_eq!(tx.message.account_keys[0].to_bytes(), payer.address());
    assert_eq!(tx.message.recent_blockhash.to_bytes(), [4u8; 32]);
    assert!(tx.verify().is_ok());
    assert_eq!(signed.signatures.len(), 2);
    assert_eq!(signed.signatures[0], tx.signatures[0].as_ref().to_vec());
    assert_eq!(signed.signatures[1], tx.signatures[1].as_ref().to_vec());
    let msg = tx.message_data();
    assert_eq!(signed.signatures[0], payer.keypair().sign_message(&msg).as_ref().to_vec());
    assert_eq!(signed.signatures[1], store.keypair().sign_message(&msg).as_ref().to_vec());
    let again = build_transaction(&ops, &vec![&store, &payer], &payer.address(), &[4u8; 32]).unwrap();
    assert_eq!(again.signatures, signed.signatures);
    let other = build_transaction(&ops, &vec![&payer, &store], &payer.address(), &[5u8; 32]).unwrap();
    assert_ne!(other.signatures, signed.signatures);
}

#[test]
fn provision_allocates_for_fresh_credential() {
    let payer = Credential::from_seed([11u8; 32]);
    let (op, account) = provision(&payer, 78, &PROGRAM, 1_000);
    assert_ne!(account.address(), payer.address());
    assert_eq!(op.program, [0u8; 32]);
    assert_eq!(op.accounts[0].address, payer.address());
    assert_eq!(op.accounts[1].address, account.address());
    assert!(op.accounts[1].signer && op.accounts[1].writable);
    assert_eq!(op.data[12..20], 78u64.to_le_bytes());
    let signed = build_transaction(&vec![op], &vec![&payer, &account], &payer.address(), &[4u8; 32]);
    assert!(signed.is_ok());
}

#[test]
fn build_transaction_rejects_missing_or_extra_signer() {
    let payer = Credential::from_seed([11u8; 32]);
    let store = Credential::from_seed([12u8; 32]);
    let ops = vec![
        account_create(&payer.address(), &store.address(), &PROGRAM, 5, 1),
        echo_operation(&PROGRAM, &store.address(), b"hello".to_vec()),
    ];
    let r = build_transaction(&ops, &vec![&payer], &payer.address(), &[4u8; 32]);
    assert_eq!(r.err(), Some(BuildError::SignerSetMismatch));
    let echo = vec![echo_operation(&PROGRAM, &store.address(), b"x".to_vec())];
    let r = build_transaction(&echo, &vec![&payer, &store], &payer.address(), &[4u8; 32]);
    assert_eq!(r.err(), Some(BuildError::SignerSetMismatch));
}

#[test]
fn build_transaction_rejects_too_many_accounts() {
    let payer = Credential::from_seed([11u8; 32]);
    let refs: Vec<AccountRef> = (0..300u32)
        .map(|i| {
            let mut address = [0u8; 32];
            address[..4].copy_from_slice(&i.to_le_bytes());
            address[31] = 1;
            AccountRef { address, writable: true, signer: false }
        })
        .collect();
    let ops = vec![Operation { program: PROGRAM, accounts: refs, data: vec![] }];
    let r = build_transaction(&ops, &vec![&payer], &payer.address(), &[4u8; 32]);
    assert_eq!(r.err(), Some(BuildError::TooManyAccounts));
}

#[test]
fn scenario_dynamic_hello() {
    let mut s = EchoSession::new(Provisioner::DynamicSlot, PROGRAM, PAYER);
    let req = s.submit_line(b"hello\n", &STORE, 900);
    assert_eq!(s.state(), SessionState::AwaitingConfirmation);
    assert!(req.creates_storage);
    assert_eq!(req.storage, STORE);
    assert_eq!(req.operations.len(), 2);
    assert_eq!(req.operations[0].data[12..20], 5u64.to_le_bytes());
    assert_eq!(req.operations[0].accounts[1].address, STORE);
    assert_eq!(req.operations[1].data, b"hello".to_vec());
    let mut slot = vec![0u8; 5];
    assert_eq!(echo_store(&mut slot, &req.operations[1].data), Ok(()));
    assert_eq!(slot, b"hello".to_vec());
    s.complete();
    assert_eq!(s.state(), SessionState::AwaitingInput);
}

#[test]
fn scenario_dynamic_empty_line() {
    let mut s = EchoSession::new(Provisioner::DynamicSlot, PROGRAM, PAYER);
    let req = s.submit_line(b"\n", &STORE, 900);
    assert_eq!(req.operations[0].data[12..20], 0u64.to_le_bytes());
    assert!(req.operations[1].data.is_empty());
    let mut slot: Vec<u8> = Vec::new();
    assert_eq!(echo_store(&mut slot, &req.operations[1].data), Ok(()));
    assert!(slot.is_empty());
}

#[test]
fn scenario_fixed_slot_truncates_to_capacity() {
    let prov = Provisioner::FixedSlot { storage: STORE, capacity: 78 };
    let mut s = EchoSession::new(prov, PROGRAM, PAYER);
    let line = vec![b'q'; 100];
    let req = s.submit_line(&line, &[5u8; 32], 900);
    assert!(!req.creates_storage);
    assert_eq!(req.storage, STORE);
    assert_eq!(req.operations.len(), 1);
    assert_eq!(req.operations[0].accounts[0].address, STORE);
    assert_eq!(req.operations[0].data, vec![b'q'; 78]);
    let mut slot = vec![0u8; 78];
    assert_eq!(echo_store(&mut slot, &req.operations[0].data), Ok(()));
    assert_eq!(slot, vec![b'q'; 78]);
}

#[test]
fn fixed_slot_pads_short_line() {
    let prov = Provisioner::FixedSlot { storage: STORE, capacity: 4 };
    let mut s = EchoSession::new(prov, PROGRAM, PAYER);
    let req = s.submit_line(b"ab\n", &[5u8; 32], 0);
    assert_eq!(req.operations[0].data, vec![b'a', b'b', 0, 0]);
}

#[test]
fn build_transaction_rejects_oversized_payload() {
    let payer = Credential::from_seed([11u8; 32]);
    let big = vec![echo_operation(&PROGRAM, &STORE, vec![1u8; 65536])];
    let r = build_transaction(&big, &vec![&payer], &payer.address(), &[4u8; 32]);
    assert_eq!(r.err(), Some(BuildError::PayloadTooLarge));
    let edge = vec![echo_operation(&PROGRAM, &STORE, vec![1u8; 65535])];
    let r = build_transaction(&edge, &vec![&payer], &payer.address(), &[4u8; 32]);
    assert!(r.is_ok());
    let wrong_signers = build_transaction(&big, &vec![&payer, &payer], &[3u8; 32], &[4u8; 32]);
    assert_eq!(wrong_signers.err(), Some(BuildError::PayloadTooLarge));
}
