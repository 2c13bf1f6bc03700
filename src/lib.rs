//! Script verification for Elements transactions, at the boundary of a native
//! consensus engine: input-index checking, canonical serialization of what the
//! engine reads, and a sound classification of the engine's answer.

mod abi;
mod boundary;
mod codec;
mod outcome;

pub use abi::{
    EngineError, ERR_AMOUNT_REQUIRED, ERR_INVALID_FLAGS, ERR_OK, ERR_TX_DESERIALIZE,
    ERR_TX_INDEX, ERR_TX_SIZE_MISMATCH, SCRIPT_FLAGS_VERIFY_ALL,
    SCRIPT_FLAGS_VERIFY_CHECKLOCKTIMEVERIFY, SCRIPT_FLAGS_VERIFY_CHECKSEQUENCEVERIFY,
    SCRIPT_FLAGS_VERIFY_DERSIG, SCRIPT_FLAGS_VERIFY_NONE, SCRIPT_FLAGS_VERIFY_NULLDUMMY,
    SCRIPT_FLAGS_VERIFY_P2SH, SCRIPT_FLAGS_VERIFY_WITNESS, STATUS_ACCEPTED,
};
pub use boundary::{
    answer_is_sound, broken_invariant, classify, lemma_verification_deterministic, prepare_call, verdict,
    EngineCall, EngineCallView,
};
pub use codec::{script_bytes, transaction_encoding, value_encoding};
pub use outcome::{ConsensusViolation, IndexOutOfBounds};
