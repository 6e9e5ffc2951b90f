//! Declarations of the outside error types that the conversions take.
use vstd::prelude::*;

verus! {

/// `std::io::Error`, taken by `SubstrateError::from_io_error`.
#[verifier::external_type_specification]
#[verifier::external_body]
pub struct ExIoError(std::io::Error);

/// `jsonrpsee::core::Error`, taken by `SubstrateError::from_rpc_error`.
#[verifier::external_type_specification]
#[verifier::external_body]
pub struct ExRpcError(jsonrpsee::core::Error);

/// `parity_scale_codec::Error`, taken by `SubstrateError::from_codec_error`.
#[verifier::external_type_specification]
#[verifier::external_body]
pub struct ExCodecError(parity_scale_codec::Error);

/// `tokio::task::JoinError`, taken by `SubstrateError::from_join_error`.
#[verifier::external_type_specification]
#[verifier::external_body]
pub struct ExJoinError(tokio::task::JoinError);

/// `async_std::channel::TrySendError`, taken by `SubstrateError::from_try_send_error`.
#[verifier::external_type_specification]
#[verifier::external_body]
#[verifier::reject_recursive_types(T)]
pub struct ExTrySendError<T>(async_std::channel::TrySendError<T>);

/// `async_std::channel::RecvError`, taken by `SubstrateError::from_recv_error`.
#[verifier::external_type_specification]
#[verifier::external_body]
pub struct ExRecvError(async_std::channel::RecvError);

/// `sp_runtime::transaction_validity::TransactionValidityError`, taken by
/// `SubstrateError::from_transaction_validity_error`.
#[verifier::external_type_specification]
#[verifier::external_body]
pub struct ExTransactionValidityError(sp_runtime::transaction_validity::TransactionValidityError);

} // verus!
