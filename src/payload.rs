//! Payloads of echo requests, and the storage write that the echo program
//! performs with them.

use vstd::prelude::*;

verus! {

/// `line` without its trailing `'\n'` bytes.
pub open spec fn trim_newlines(line: Seq<u8>) -> Seq<u8>
    decreases line.len(),
{
    if line.len() > 0 && line.last() == 10u8 {
        trim_newlines(line.drop_last())
    } else {
        line
    }
}

/// `line` cut or zero-padded to exactly `capacity` bytes.
pub open spec fn fit_to_capacity(line: Seq<u8>, capacity: nat) -> Seq<u8> {
    Seq::new(capacity, |i: int| if i < line.len() { line[i] } else { 0u8 })
}

/// What a storage buffer of `capacity` bytes holds after an echo of
/// `payload`: the payload, when its length is the capacity; otherwise the
/// echo fails (`None`).
pub open spec fn echo_result(capacity: nat, payload: Seq<u8>) -> Option<Seq<u8>> {
    if payload.len() == capacity {
        Some(payload)
    } else {
        None
    }
}

/// Why an echo could not be stored.
#[derive(PartialEq, Eq, Structural, Clone, Copy, Debug)]
pub enum EchoError {
    /// The payload's length differs from the storage buffer's capacity.
    CapacityMismatch,
}

/// Removes every trailing `'\n'` byte of an input line.
pub fn trim_line_end(line: &[u8]) -> (r: Vec<u8>)
    ensures
        r@ == trim_newlines(line@),
{
    let mut end: usize = line.len();
    assert(line@.subrange(0, end as int) =~= line@);
    while end > 0 && line[end - 1] == 10u8
        invariant
            end <= line@.len(),
            trim_newlines(line@.subrange(0, end as int)) == trim_newlines(line@),
        decreases end,
    {
        assert(line@.subrange(0, end as int).drop_last() =~= line@.subrange(0, end - 1));
        end = end - 1;
    }
    let mut r: Vec<u8> = Vec::new();
    let mut i: usize = 0;
    while i < end
        invariant
            end <= line@.len(),
            i <= end,
            r@ =~= line@.subrange(0, i as int),
        decreases end - i,
    {
        r.push(line[i]);
        i = i + 1;
    }
    r
}

/// The fixed-slot payload: the first `capacity` bytes of `line`, followed
/// by zero bytes up to `capacity` when `line` is shorter.
pub fn fixed_payload(line: &[u8], capacity: usize) -> (r: Vec<u8>)
    ensures
        r@ == fit_to_capacity(line@, capacity as nat),
{
    let mut r: Vec<u8> = Vec::new();
    let mut i: usize = 0;
    while i < capacity
        invariant
            i <= capacity,
            r@ =~= fit_to_capacity(line@, capacity as nat).subrange(0, i as int),
        decreases capacity - i,
    {
        if i < line.len() {
            r.push(line[i]);
        } else {
            r.push(0u8);
        }
        i = i + 1;
    }
    r
}

/// The echo program's write: copies `payload` into `slot` when their
/// lengths agree, and otherwise fails and leaves `slot` unchanged.
pub fn echo_store(slot: &mut Vec<u8>, payload: &[u8]) -> (r: Result<(), EchoError>)
    ensures
        r is Ok <==> payload@.len() == old(slot)@.len(),
        r is Ok ==> final(slot)@ == payload@,
        r is Err ==> final(slot)@ == old(slot)@,
        echo_result(old(slot)@.len(), payload@) == if r is Ok {
            Some(final(slot)@)
        } else {
            None::<Seq<u8>>
        },
{
    if payload.len() != slot.len() {
        return Err(EchoError::CapacityMismatch);
    }
    let mut i: usize = 0;
    while i < payload.len()
        invariant
            i <= payload@.len(),
            slot@.len() == payload@.len(),
            forall|k: int| 0 <= k < i ==> slot@[k] == payload@[k],
        decreases payload.len() - i,
    {
        slot.set(i, payload[i]);
        i = i + 1;
    }
    assert(slot@ =~= payload@);
    Ok(())
}

} // verus!
