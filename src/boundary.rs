//! The verification boundary: what is checked before the consensus engine is
//! called, what it is handed, and how its answer is read.

use vstd::prelude::*;

use elements::confidential::Value;
use elements::{Script, Transaction};

use crate::abi::{EngineError, ERR_OK, SCRIPT_FLAGS_VERIFY_ALL, STATUS_ACCEPTED};
use crate::codec::{
    encode_transaction, encode_value, script_bytes, transaction_encoding, value_encoding,
};
use crate::outcome::{ConsensusViolation, IndexOutOfBounds};

verus! {

/// Everything the consensus engine is handed for one verification: the
/// locking script, the spent value and the spending transaction in their
/// canonical encodings, the index of the input that spends, and the rule mask.
#[derive(Debug)]
pub struct EngineCall {
    pub script: Vec<u8>,
    pub amount: Vec<u8>,
    pub transaction: Vec<u8>,
    pub index: usize,
    pub flags: u32,
}

/// What an `EngineCall` hands over, as values.
pub struct EngineCallView {
    pub script: Seq<u8>,
    pub amount: Seq<u8>,
    pub transaction: Seq<u8>,
    pub index: usize,
    pub flags: u32,
}

impl View for EngineCall {
    type V = EngineCallView;

    open spec fn view(&self) -> EngineCallView {
        EngineCallView {
            script: self.script@,
            amount: self.amount@,
            transaction: self.transaction@,
            index: self.index,
            flags: self.flags,
        }
    }
}

impl EngineCall {
    /// This call asks whether input `index` of `transaction` unlocks `coins`
    /// under `script`, with every rule enabled.
    pub open spec fn requests(
        &self,
        script: Script,
        coins: Value,
        index: usize,
        transaction: Transaction,
    ) -> bool {
        &&& self.script@ == script_bytes(script)
        &&& self.amount@ == value_encoding(coins)
        &&& self.transaction@ == transaction_encoding(transaction)
        &&& self.index == index
        &&& self.flags == SCRIPT_FLAGS_VERIFY_ALL
    }
}

/// Checks that `index` names an input of `transaction` and, if it does,
/// builds the engine call that verifies that input against `script` and
/// `coins`. Nothing is serialized for an index out of bounds.
pub fn prepare_call(
    script: Script,
    coins: &Value,
    index: usize,
    transaction: &Transaction,
) -> (r: Result<EngineCall, IndexOutOfBounds>)
    ensures
        r is Err <==> index >= transaction.input@.len(),
        r matches Ok(call) ==> call.requests(script, *coins, index, *transaction),
{
    if transaction.input.len() <= index {
        return Err(IndexOutOfBounds);
    }
    let script_encoded = script.into_bytes();
    let amount = encode_value(coins);
    let transaction_encoded = encode_transaction(transaction);
    Ok(
        EngineCall {
            script: script_encoded,
            amount,
            transaction: transaction_encoded,
            index,
            flags: SCRIPT_FLAGS_VERIFY_ALL,
        },
    )
}

/// Verification is deterministic up to the engine: two calls prepared from the
/// same script, value, index and transaction hand the engine the same bytes,
/// the same index and the same mask, and `classify` depends on the engine's
/// answer alone.
pub proof fn lemma_verification_deterministic(
    script: Script,
    coins: Value,
    index: usize,
    transaction: Transaction,
    first: EngineCall,
    second: EngineCall,
)
    requires
        first.requests(script, coins, index, transaction),
        second.requests(script, coins, index, transaction),
    ensures
        first@ == second@,
{
}

/// The engine's answer is one this boundary can read: an acceptance, or a
/// refusal by the interpreter itself. Any other answer means that the
/// boundary's own guarantees towards the engine have been broken.
pub open spec fn answer_is_sound(status: i32, error: i32) -> bool {
    status == STATUS_ACCEPTED || error == ERR_OK
}

/// The error behind an answer that breaks the boundary's invariants, or
/// `None` for a sound answer.
pub fn broken_invariant(status: i32, error: i32) -> (r: Option<EngineError>)
    ensures
        r is None <==> answer_is_sound(status, error),
        r matches Some(e) ==> e == EngineError::spec_from_code(error) && e != EngineError::NoError,
{
    if status == STATUS_ACCEPTED {
        None
    } else {
        let e = EngineError::from_code(error);
        match e {
            EngineError::NoError => None,
            _ => Some(e),
        }
    }
}

/// The verdict that an acceptance or a refusal stands for.
pub open spec fn verdict(status: i32) -> Result<(), ConsensusViolation> {
    if status == STATUS_ACCEPTED {
        Ok(())
    } else {
        Err(ConsensusViolation)
    }
}

/// Reads a sound answer of the engine: the spend is valid exactly when the
/// engine accepted it; a refusal with no error is a consensus violation.
pub fn classify(status: i32, error: i32) -> (r: Result<(), ConsensusViolation>)
    requires
        answer_is_sound(status, error),
    ensures
        r == verdict(status),
{
    if status == STATUS_ACCEPTED {
        Ok(())
    } else {
        Err(ConsensusViolation)
    }
}

} // verus!
