//! The layout of a stored record: nonce, then ciphertext and tag.
//!
//! There is no header, length prefix or version: the first twelve bytes are
//! the nonce and everything after them is the cipher's output.

use crate::cipher::NONCE_SIZE;
use vstd::prelude::*;

verus! {

/// The bytes of the record made of `nonce` and `sealed`.
pub open spec fn record_bytes(nonce: Seq<u8>, sealed: Seq<u8>) -> Seq<u8> {
    nonce + sealed
}

/// Whether `record` is long enough to hold a nonce.
pub open spec fn holds_nonce(record: Seq<u8>) -> bool {
    record.len() >= NONCE_SIZE
}

/// The nonce of a record that holds one.
pub open spec fn record_nonce(record: Seq<u8>) -> Seq<u8>
    recommends
        holds_nonce(record),
{
    record.subrange(0, NONCE_SIZE as int)
}

/// What follows the nonce in a record that holds one.
pub open spec fn record_sealed(record: Seq<u8>) -> Seq<u8>
    recommends
        holds_nonce(record),
{
    record.subrange(NONCE_SIZE as int, record.len() as int)
}

/// Joins a nonce and the cipher's output into the bytes to store.
pub fn assemble_record(nonce: &[u8], sealed: &[u8]) -> (record: Vec<u8>)
    ensures
        record@ == record_bytes(nonce@, sealed@),
{
    let mut record: Vec<u8> = Vec::new();
    record.extend_from_slice(nonce);
    record.extend_from_slice(sealed);
    assert(record@ =~= nonce@ + sealed@);
    record
}

/// Splits stored bytes into the nonce and what follows it, or returns `None`
/// where they are too short to hold a nonce.
pub fn split_record(record: &[u8]) -> (parts: Option<(&[u8], &[u8])>)
    ensures
        parts is Some <==> holds_nonce(record@),
        parts is Some ==> parts->Some_0.0@ == record_nonce(record@),
        parts is Some ==> parts->Some_0.1@ == record_sealed(record@),
{
    if record.len() < NONCE_SIZE {
        None
    } else {
        let (nonce, sealed) = record.split_at(NONCE_SIZE);
        Some((nonce, sealed))
    }
}

/// Splitting undoes assembling: a record made of a twelve-byte nonce and any
/// sealed bytes holds a nonce, and falls apart into exactly the two.
pub proof fn lemma_split_of_assembled(nonce: Seq<u8>, sealed: Seq<u8>)
    requires
        nonce.len() == NONCE_SIZE,
    ensures
        holds_nonce(record_bytes(nonce, sealed)),
        record_nonce(record_bytes(nonce, sealed)) == nonce,
        record_sealed(record_bytes(nonce, sealed)) == sealed,
{
    let record = record_bytes(nonce, sealed);
    assert(record_nonce(record) =~= nonce);
    assert(record_sealed(record) =~= sealed);
}

/// Assembling undoes splitting: a record that holds a nonce is its nonce
/// followed by the rest.
pub proof fn lemma_assembled_of_split(record: Seq<u8>)
    requires
        holds_nonce(record),
    ensures
        record_bytes(record_nonce(record), record_sealed(record)) == record,
        record_nonce(record).len() == NONCE_SIZE,
        record_sealed(record).len() == record.len() - NONCE_SIZE,
{
    assert(record_bytes(record_nonce(record), record_sealed(record)) =~= record);
}

/// Two records made with different twelve-byte nonces differ, and they differ
/// within their first twelve bytes, whatever was sealed.
pub proof fn lemma_distinct_nonces_give_distinct_records(
    nonce_a: Seq<u8>,
    sealed_a: Seq<u8>,
    nonce_b: Seq<u8>,
    sealed_b: Seq<u8>,
)
    requires
        nonce_a.len() == NONCE_SIZE,
        nonce_b.len() == NONCE_SIZE,
        nonce_a != nonce_b,
    ensures
        record_nonce(record_bytes(nonce_a, sealed_a)) != record_nonce(
            record_bytes(nonce_b, sealed_b),
        ),
        record_bytes(nonce_a, sealed_a) != record_bytes(nonce_b, sealed_b),
{
    lemma_split_of_assembled(nonce_a, sealed_a);
    lemma_split_of_assembled(nonce_b, sealed_b);
}

} // verus!
