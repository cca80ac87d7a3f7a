use vstd::prelude::*;

use omni_transaction::evm::types::Signature;
use omni_transaction::evm::EVMTransaction;

verus! {

/// omni_transaction's EVM transaction, declared so that the library can
/// carry a transaction value through to the signing boundary.  It stays
/// opaque here: the state machine only ever works on its canonical byte
/// encodings, named below.
#[verifier::external_type_specification]
#[verifier::external_body]
pub struct ExEVMTransaction(EVMTransaction);

/// The transaction `tx` with its call data replaced by `input` and its
/// destination by the 20 address bytes `to`; a pure value rebuild, fixed by
/// the transaction's plain fields alone.
pub uninterp spec fn tx_with_fields_of(tx: EVMTransaction, input: Seq<u8>, to: Seq<u8>) -> EVMTransaction;

/// What `EVMTransaction::build_for_signing` returns: the canonical RLP
/// encoding of the unsigned transaction, a pure function of the transaction
/// value alone.
pub uninterp spec fn unsigned_rlp_of(tx: EVMTransaction) -> Seq<u8>;

/// What `EVMTransaction::build_with_signature` returns: the RLP encoding of
/// the transaction with the signature `(v, r, s)` appended, a pure function
/// of its arguments alone.
pub uninterp spec fn signed_rlp_of(tx: EVMTransaction, v: u64, r: Seq<u8>, s: Seq<u8>) -> Seq<u8>;

/// Relies on EVMTransaction's public fields and Clone: the same transaction
/// with its call data replaced by `input` and its destination by the 20
/// address bytes `to`.
#[verifier::external_body]
pub fn tx_with_input_and_to(tx: &EVMTransaction, input: Vec<u8>, to: &Vec<u8>) -> (r:
    EVMTransaction)
    requires
        to@.len() == 20,
    ensures
        r == tx_with_fields_of(*tx, input@, to@),
{
    let mut t = tx.clone();
    let mut addr = [0u8; 20];
    addr.copy_from_slice(to.as_slice());
    t.input = input;
    t.to = Some(addr);
    t
}

/// Relies on EVMTransaction::build_for_signing: the canonical RLP encoding
/// of the unsigned transaction, the bytes whose digest is signed.
#[verifier::external_body]
pub fn tx_build_for_signing(tx: &EVMTransaction) -> (r: Vec<u8>)
    ensures
        r@ == unsigned_rlp_of(*tx),
{
    tx.build_for_signing()
}

/// Relies on EVMTransaction::build_with_signature: the RLP encoding of the
/// transaction with the signature `(v, r, s)` appended.
#[verifier::external_body]
pub fn tx_build_with_signature(tx: &EVMTransaction, v: u64, r_bytes: Vec<u8>, s_bytes: Vec<u8>) -> (r: Vec<u8>)
    ensures
        r@ == signed_rlp_of(*tx, v, r_bytes@, s_bytes@),
{
    let signature = Signature { v, r: r_bytes, s: s_bytes };
    tx.build_with_signature(&signature)
}

} // verus!
