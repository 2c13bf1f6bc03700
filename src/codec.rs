//! The types of the `elements` transaction codec that cross this boundary, and
//! the canonical byte encodings that the consensus engine reads.

use vstd::prelude::*;

use elements::confidential::Value;
use elements::{LockTime, Script, Transaction, TxIn, TxOut};

verus! {

#[verifier::external_type_specification]
#[verifier::external_body]
pub struct ExScript(Script);

#[verifier::external_type_specification]
#[verifier::external_body]
pub struct ExValue(Value);

#[verifier::external_type_specification]
#[verifier::external_body]
pub struct ExTxIn(TxIn);

#[verifier::external_type_specification]
#[verifier::external_body]
pub struct ExTxOut(TxOut);

#[verifier::external_type_specification]
#[verifier::external_body]
pub struct ExLockTime(LockTime);

/// A transaction's fields are public, so its inputs are visible to contracts.
#[verifier::external_type_specification]
pub struct ExTransaction(Transaction);

/// The bytes of a script.
pub uninterp spec fn script_bytes(script: Script) -> Seq<u8>;

/// The consensus encoding of a confidential value.
pub uninterp spec fn value_encoding(value: Value) -> Seq<u8>;

/// The consensus encoding of a transaction.
pub uninterp spec fn transaction_encoding(transaction: Transaction) -> Seq<u8>;

/// Relies on `Script::into_bytes`, which hands over the script's bytes.
pub assume_specification[ Script::into_bytes ](script: Script) -> (r: Vec<u8>)
    ensures
        r@ == script_bytes(script),
;

/// Relies on `elements::encode::serialize` over `Value`'s `Encodable` impl,
/// whose output depends on the value alone (writing to a `Vec` cannot fail).
#[verifier::external_body]
pub(crate) fn encode_value(value: &Value) -> (r: Vec<u8>)
    ensures
        r@ == value_encoding(*value),
{
    elements::encode::serialize(value)
}

/// Relies on `elements::encode::serialize` over `Transaction`'s `Encodable`
/// impl, whose output depends on the transaction alone.
#[verifier::external_body]
pub(crate) fn encode_transaction(transaction: &Transaction) -> (r: Vec<u8>)
    ensures
        r@ == transaction_encoding(*transaction),
{
    elements::encode::serialize(transaction)
}

} // verus!
