//! The domain error taxonomy with its stable codes.
//!
//! Each domain failure carries a documented integer code. The two
//! pass-through kinds, `GatewayError` and `Internal`, share the JSON-RPC
//! internal-error code and never disclose their carried text.

use vstd::prelude::*;

verus! {

/// The state a trace request was left in.
#[derive(Clone, Copy, Debug)]
pub enum TraceError {
    Received,
    Rejected,
}

/// A domain failure, with a stable integer code per kind.
#[derive(Debug)]
#[allow(inconsistent_fields)]
pub enum RpcError {
    FailedToReceiveTxn,
    ContractNotFound,
    BlockNotFound,
    TxnHashNotFoundV03,
    InvalidTxnIndex,
    InvalidTxnHash,
    InvalidBlockHash,
    ClassHashNotFound,
    TxnHashNotFoundV04,
    PageSizeTooBig,
    NoBlocks,
    NoTraceAvailable(TraceError),
    InvalidContinuationToken,
    TooManyKeysInFilter{ limit: usize, requested: usize },
    ContractError,
    InvalidContractClass,
    ClassAlreadyDeclared,
    InvalidTransactionNonce,
    InsufficientMaxFee,
    InsufficientAccountBalance,
    ValidationFailure,
    CompilationFailed,
    ContractClassSizeIsTooLarge,
    NonAccount,
    DuplicateTransaction,
    CompiledClassHashMismatch,
    UnsupportedTxVersion,
    UnsupportedContractClassVersion,
    UnexpectedError{ data: Vec<u8> },
    ProofLimitExceeded{ limit: u32, requested: u32 },
    GatewayError(Vec<u8>),
    Internal(Vec<u8>),
}

impl RpcError {
    /// The stable code of this kind.
    pub open spec fn spec_code(&self) -> int {
        match *self {
            RpcError::FailedToReceiveTxn => 1,
            RpcError::ContractNotFound => 20,
            RpcError::BlockNotFound => 24,
            RpcError::TxnHashNotFoundV03 => 25,
            RpcError::InvalidTxnIndex => 27,
            RpcError::InvalidTxnHash => 25,
            RpcError::InvalidBlockHash => 26,
            RpcError::ClassHashNotFound => 28,
            RpcError::TxnHashNotFoundV04 => 29,
            RpcError::PageSizeTooBig => 31,
            RpcError::NoBlocks => 32,
            RpcError::NoTraceAvailable(..) => 10,
            RpcError::InvalidContinuationToken => 33,
            RpcError::TooManyKeysInFilter { .. } => 34,
            RpcError::ContractError => 40,
            RpcError::InvalidContractClass => 50,
            RpcError::ClassAlreadyDeclared => 51,
            RpcError::InvalidTransactionNonce => 52,
            RpcError::InsufficientMaxFee => 53,
            RpcError::InsufficientAccountBalance => 54,
            RpcError::ValidationFailure => 55,
            RpcError::CompilationFailed => 56,
            RpcError::ContractClassSizeIsTooLarge => 57,
            RpcError::NonAccount => 58,
            RpcError::DuplicateTransaction => 59,
            RpcError::CompiledClassHashMismatch => 60,
            RpcError::UnsupportedTxVersion => 61,
            RpcError::UnsupportedContractClassVersion => 62,
            RpcError::UnexpectedError { .. } => 63,
            RpcError::ProofLimitExceeded { .. } => 10000,
            RpcError::GatewayError(..) => -32603,
            RpcError::Internal(..) => -32603,
        }
    }

    /// The stable code of this kind.
    pub fn code(&self) -> (r: i32)
        ensures
            r as int == self.spec_code(),
    {
        match self {
            RpcError::FailedToReceiveTxn => 1,
            RpcError::ContractNotFound => 20,
            RpcError::BlockNotFound => 24,
            RpcError::TxnHashNotFoundV03 => 25,
            RpcError::InvalidTxnIndex => 27,
            RpcError::InvalidTxnHash => 25,
            RpcError::InvalidBlockHash => 26,
            RpcError::ClassHashNotFound => 28,
            RpcError::TxnHashNotFoundV04 => 29,
            RpcError::PageSizeTooBig => 31,
            RpcError::NoBlocks => 32,
            RpcError::NoTraceAvailable(..) => 10,
            RpcError::InvalidContinuationToken => 33,
            RpcError::TooManyKeysInFilter { .. } => 34,
            RpcError::ContractError => 40,
            RpcError::InvalidContractClass => 50,
            RpcError::ClassAlreadyDeclared => 51,
            RpcError::InvalidTransactionNonce => 52,
            RpcError::InsufficientMaxFee => 53,
            RpcError::InsufficientAccountBalance => 54,
            RpcError::ValidationFailure => 55,
            RpcError::CompilationFailed => 56,
            RpcError::ContractClassSizeIsTooLarge => 57,
            RpcError::NonAccount => 58,
            RpcError::DuplicateTransaction => 59,
            RpcError::CompiledClassHashMismatch => 60,
            RpcError::UnsupportedTxVersion => 61,
            RpcError::UnsupportedContractClassVersion => 62,
            RpcError::UnexpectedError { .. } => 63,
            RpcError::ProofLimitExceeded { .. } => 10000,
            RpcError::GatewayError(..) => -32603,
            RpcError::Internal(..) => -32603,
        }
    }

    /// The fixed human text of this kind; the two pass-through kinds
    /// answer with the generic internal-error text.
    pub open spec fn spec_message(&self) -> Seq<u8> {
        match *self {
            RpcError::FailedToReceiveTxn => crate::tokens::spec_tok_dm_failed_to_receive_txn(),
            RpcError::ContractNotFound => crate::tokens::spec_tok_dm_contract_not_found(),
            RpcError::BlockNotFound => crate::tokens::spec_tok_dm_block_not_found(),
            RpcError::TxnHashNotFoundV03 => crate::tokens::spec_tok_dm_txn_hash_not_found(),
            RpcError::InvalidTxnIndex => crate::tokens::spec_tok_dm_invalid_txn_index(),
            RpcError::InvalidTxnHash => crate::tokens::spec_tok_dm_invalid_txn_hash(),
            RpcError::InvalidBlockHash => crate::tokens::spec_tok_dm_invalid_block_hash(),
            RpcError::ClassHashNotFound => crate::tokens::spec_tok_dm_class_hash_not_found(),
            RpcError::TxnHashNotFoundV04 => crate::tokens::spec_tok_dm_txn_hash_not_found(),
            RpcError::PageSizeTooBig => crate::tokens::spec_tok_dm_page_size_too_big(),
            RpcError::NoBlocks => crate::tokens::spec_tok_dm_no_blocks(),
            RpcError::NoTraceAvailable(..) => crate::tokens::spec_tok_dm_no_trace_available(),
            RpcError::InvalidContinuationToken => crate::tokens::spec_tok_dm_invalid_continuation_token(),
            RpcError::TooManyKeysInFilter { .. } => crate::tokens::spec_tok_dm_too_many_keys_in_filter(),
            RpcError::ContractError => crate::tokens::spec_tok_dm_contract_error(),
            RpcError::InvalidContractClass => crate::tokens::spec_tok_dm_invalid_contract_class(),
            RpcError::ClassAlreadyDeclared => crate::tokens::spec_tok_dm_class_already_declared(),
            RpcError::InvalidTransactionNonce => crate::tokens::spec_tok_dm_invalid_transaction_nonce(),
            RpcError::InsufficientMaxFee => crate::tokens::spec_tok_dm_insufficient_max_fee(),
            RpcError::InsufficientAccountBalance => crate::tokens::spec_tok_dm_insufficient_account_balance(),
            RpcError::ValidationFailure => crate::tokens::spec_tok_dm_validation_failure(),
            RpcError::CompilationFailed => crate::tokens::spec_tok_dm_compilation_failed(),
            RpcError::ContractClassSizeIsTooLarge => crate::tokens::spec_tok_dm_contract_class_size_too_large(),
            RpcError::NonAccount => crate::tokens::spec_tok_dm_non_account(),
            RpcError::DuplicateTransaction => crate::tokens::spec_tok_dm_duplicate_transaction(),
            RpcError::CompiledClassHashMismatch => crate::tokens::spec_tok_dm_compiled_class_hash_mismatch(),
            RpcError::UnsupportedTxVersion => crate::tokens::spec_tok_dm_unsupported_tx_version(),
            RpcError::UnsupportedContractClassVersion => crate::tokens::spec_tok_dm_unsupported_contract_class_version(),
            RpcError::UnexpectedError { .. } => crate::tokens::spec_tok_dm_unexpected_error(),
            RpcError::ProofLimitExceeded { .. } => crate::tokens::spec_tok_dm_proof_limit_exceeded(),
            RpcError::GatewayError(..) => crate::tokens::spec_tok_internal_error_msg(),
            RpcError::Internal(..) => crate::tokens::spec_tok_internal_error_msg(),
        }
    }

    /// The fixed human text of this kind.
    pub fn message(&self) -> (r: Vec<u8>)
        ensures
            r@ == self.spec_message(),
    {
        match self {
            RpcError::FailedToReceiveTxn => crate::tokens::tok_dm_failed_to_receive_txn(),
            RpcError::ContractNotFound => crate::tokens::tok_dm_contract_not_found(),
            RpcError::BlockNotFound => crate::tokens::tok_dm_block_not_found(),
            RpcError::TxnHashNotFoundV03 => crate::tokens::tok_dm_txn_hash_not_found(),
            RpcError::InvalidTxnIndex => crate::tokens::tok_dm_invalid_txn_index(),
            RpcError::InvalidTxnHash => crate::tokens::tok_dm_invalid_txn_hash(),
            RpcError::InvalidBlockHash => crate::tokens::tok_dm_invalid_block_hash(),
            RpcError::ClassHashNotFound => crate::tokens::tok_dm_class_hash_not_found(),
            RpcError::TxnHashNotFoundV04 => crate::tokens::tok_dm_txn_hash_not_found(),
            RpcError::PageSizeTooBig => crate::tokens::tok_dm_page_size_too_big(),
            RpcError::NoBlocks => crate::tokens::tok_dm_no_blocks(),
            RpcError::NoTraceAvailable(..) => crate::tokens::tok_dm_no_trace_available(),
            RpcError::InvalidContinuationToken => crate::tokens::tok_dm_invalid_continuation_token(),
            RpcError::TooManyKeysInFilter { .. } => crate::tokens::tok_dm_too_many_keys_in_filter(),
            RpcError::ContractError => crate::tokens::tok_dm_contract_error(),
            RpcError::InvalidContractClass => crate::tokens::tok_dm_invalid_contract_class(),
            RpcError::ClassAlreadyDeclared => crate::tokens::tok_dm_class_already_declared(),
            RpcError::InvalidTransactionNonce => crate::tokens::tok_dm_invalid_transaction_nonce(),
            RpcError::InsufficientMaxFee => crate::tokens::tok_dm_insufficient_max_fee(),
            RpcError::InsufficientAccountBalance => crate::tokens::tok_dm_insufficient_account_balance(),
            RpcError::ValidationFailure => crate::tokens::tok_dm_validation_failure(),
            RpcError::CompilationFailed => crate::tokens::tok_dm_compilation_failed(),
            RpcError::ContractClassSizeIsTooLarge => crate::tokens::tok_dm_contract_class_size_too_large(),
            RpcError::NonAccount => crate::tokens::tok_dm_non_account(),
            RpcError::DuplicateTransaction => crate::tokens::tok_dm_duplicate_transaction(),
            RpcError::CompiledClassHashMismatch => crate::tokens::tok_dm_compiled_class_hash_mismatch(),
            RpcError::UnsupportedTxVersion => crate::tokens::tok_dm_unsupported_tx_version(),
            RpcError::UnsupportedContractClassVersion => crate::tokens::tok_dm_unsupported_contract_class_version(),
            RpcError::UnexpectedError { .. } => crate::tokens::tok_dm_unexpected_error(),
            RpcError::ProofLimitExceeded { .. } => crate::tokens::tok_dm_proof_limit_exceeded(),
            RpcError::GatewayError(..) => crate::tokens::tok_internal_error_msg(),
            RpcError::Internal(..) => crate::tokens::tok_internal_error_msg(),
        }
    }

    /// True of the two kinds whose text is never disclosed.
    pub open spec fn spec_is_hidden(&self) -> bool {
        match *self {
            RpcError::GatewayError(..) => true,
            RpcError::Internal(..) => true,
            _ => false,
        }
    }
}

} // verus!