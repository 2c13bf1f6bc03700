//! The stable constants of the consensus engine's interface: rule flags, the
//! status that means "accepted", and the error codes it reports out of band.
//!
//! These are kept by hand. A code that a newer engine introduces is decoded as
//! `EngineError::Unknown` until it is added here.

use vstd::prelude::*;

verus! {

/// No rule enabled.
pub const SCRIPT_FLAGS_VERIFY_NONE: u32 = 0;

/// Evaluate pay-to-script-hash subscripts.
pub const SCRIPT_FLAGS_VERIFY_P2SH: u32 = 1;

/// Reject signatures that are not strict DER.
pub const SCRIPT_FLAGS_VERIFY_DERSIG: u32 = 4;

/// Require the dummy element of a multi-signature check to be empty.
pub const SCRIPT_FLAGS_VERIFY_NULLDUMMY: u32 = 16;

/// Enable the absolute-timelock opcode.
pub const SCRIPT_FLAGS_VERIFY_CHECKLOCKTIMEVERIFY: u32 = 512;

/// Enable the relative-timelock opcode.
pub const SCRIPT_FLAGS_VERIFY_CHECKSEQUENCEVERIFY: u32 = 1024;

/// Enable segregated-witness spending.
pub const SCRIPT_FLAGS_VERIFY_WITNESS: u32 = 2048;

/// Every rule above; the only mask this boundary hands to the engine.
pub const SCRIPT_FLAGS_VERIFY_ALL: u32 = SCRIPT_FLAGS_VERIFY_P2SH | SCRIPT_FLAGS_VERIFY_DERSIG
    | SCRIPT_FLAGS_VERIFY_NULLDUMMY | SCRIPT_FLAGS_VERIFY_CHECKLOCKTIMEVERIFY
    | SCRIPT_FLAGS_VERIFY_CHECKSEQUENCEVERIFY | SCRIPT_FLAGS_VERIFY_WITNESS;

/// The status with which the engine accepts a spend; any other is a refusal.
pub const STATUS_ACCEPTED: i32 = 1;

/// The interpreter ran; on a refusal this means the spend broke the rules.
pub const ERR_OK: i32 = 0;

/// The input index is not one of the transaction's inputs.
pub const ERR_TX_INDEX: i32 = 1;

/// The transaction's length does not match the buffer handed over.
pub const ERR_TX_SIZE_MISMATCH: i32 = 2;

/// The transaction bytes could not be decoded.
pub const ERR_TX_DESERIALIZE: i32 = 3;

/// The rules asked for the spent amount and none was given.
pub const ERR_AMOUNT_REQUIRED: i32 = 4;

/// The flag mask holds bits that the engine does not know.
pub const ERR_INVALID_FLAGS: i32 = 5;

/// An error code of the engine, decoded.
#[derive(Debug, Clone, Copy, PartialEq, Eq, Structural)]
pub enum EngineError {
    NoError,
    TxIndex,
    TxSizeMismatch,
    TxDeserialize,
    AmountRequired,
    InvalidFlags,
    /// A code that this boundary does not know.
    Unknown(i32),
}

impl EngineError {
    /// The error that a raw code stands for.
    pub open spec fn spec_from_code(code: i32) -> EngineError {
        if code == ERR_OK {
            EngineError::NoError
        } else if code == ERR_TX_INDEX {
            EngineError::TxIndex
        } else if code == ERR_TX_SIZE_MISMATCH {
            EngineError::TxSizeMismatch
        } else if code == ERR_TX_DESERIALIZE {
            EngineError::TxDeserialize
        } else if code == ERR_AMOUNT_REQUIRED {
            EngineError::AmountRequired
        } else if code == ERR_INVALID_FLAGS {
            EngineError::InvalidFlags
        } else {
            EngineError::Unknown(code)
        }
    }

    /// Decodes a raw error code.
    pub fn from_code(code: i32) -> (r: EngineError)
        ensures
            r == Self::spec_from_code(code),
    {
        if code == ERR_OK {
            EngineError::NoError
        } else if code == ERR_TX_INDEX {
            EngineError::TxIndex
        } else if code == ERR_TX_SIZE_MISMATCH {
            EngineError::TxSizeMismatch
        } else if code == ERR_TX_DESERIALIZE {
            EngineError::TxDeserialize
        } else if code == ERR_AMOUNT_REQUIRED {
            EngineError::AmountRequired
        } else if code == ERR_INVALID_FLAGS {
            EngineError::InvalidFlags
        } else {
            EngineError::Unknown(code)
        }
    }
}

} // verus!
