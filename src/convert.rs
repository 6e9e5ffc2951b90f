//! Conversions of the failures of the outside libraries into leaf kinds.
use vstd::prelude::*;
use vstd::string::StringExecFns;

use crate::error::{SubstrateError, RpcErrorKind, RpcFailure};

verus! {

/// Which variant of `jsonrpsee::core::Error` a failure is, as far as reconnecting goes:
/// `Transport`, `RestartNeeded`, or any other.
pub uninterp spec fn rpc_kind_of(e: jsonrpsee::core::Error) -> RpcErrorKind;

/// The text that `Display` of `parity_scale_codec::Error` writes for a failure.
pub uninterp spec fn codec_text_of(e: parity_scale_codec::Error) -> Seq<char>;

/// The text that `Display` of `tokio::task::JoinError` writes for a failure: which
/// task failed, and how.
pub uninterp spec fn join_text_of(e: tokio::task::JoinError) -> Seq<char>;

/// The text that the derived `Debug` of
/// `sp_runtime::transaction_validity::TransactionValidityError` writes for a rejection.
pub uninterp spec fn validity_debug_of(
    e: sp_runtime::transaction_validity::TransactionValidityError,
) -> Seq<char>;

/// Relies on `Display` of `std::io::Error`: the message of the failure.
#[verifier::external_body]
fn io_error_text(e: &std::io::Error) -> String {
    e.to_string()
}

/// Relies on `Display` of `jsonrpsee::core::Error`: the message of the failure.
#[verifier::external_body]
fn rpc_error_text(e: &jsonrpsee::core::Error) -> String {
    e.to_string()
}

/// Relies on the variants of `jsonrpsee::core::Error`: `Transport` and `RestartNeeded`
/// are told apart from all the others; the variant depends on the value alone.
#[verifier::external_body]
fn rpc_error_kind(e: &jsonrpsee::core::Error) -> (r: RpcErrorKind)
    ensures
        r == rpc_kind_of(*e),
{
    match e {
        jsonrpsee::core::Error::Transport(_) => RpcErrorKind::Transport,
        jsonrpsee::core::Error::RestartNeeded(_) => RpcErrorKind::RestartNeeded,
        _ => RpcErrorKind::Other,
    }
}

/// Relies on `Display` of `parity_scale_codec::Error`: the descriptions that the
/// failure holds, which alone decide the text.
#[verifier::external_body]
fn codec_error_text(e: &parity_scale_codec::Error) -> (r: String)
    ensures
        r@ == codec_text_of(*e),
{
    e.to_string()
}

/// Relies on `Display` of `tokio::task::JoinError`: the id of the task and how it
/// failed, which alone decide the text.
#[verifier::external_body]
fn join_error_text(e: &tokio::task::JoinError) -> (r: String)
    ensures
        r@ == join_text_of(*e),
{
    e.to_string()
}

/// Relies on `Debug` of `async_std::channel::TrySendError`, which writes `Full(..)`
/// or `Closed(..)` and leaves the rejected message out.
#[verifier::external_body]
fn try_send_error_debug<T>(e: &async_std::channel::TrySendError<T>) -> (r: String)
    ensures
        r@ == "Full(..)"@ || r@ == "Closed(..)"@,
{
    format!("{e:?}")
}

/// Relies on the derived `Debug` of the unit struct `async_std::channel::RecvError`.
#[verifier::external_body]
fn recv_error_debug(e: &async_std::channel::RecvError) -> (r: String)
    ensures
        r@ == "RecvError"@,
{
    format!("{e:?}")
}

/// Relies on the derived `Debug` of
/// `sp_runtime::transaction_validity::TransactionValidityError`: the reason of the
/// rejection.
#[verifier::external_body]
fn transaction_validity_debug(
    e: &sp_runtime::transaction_validity::TransactionValidityError,
) -> (r: String)
    ensures
        r@ == validity_debug_of(*e),
{
    format!("{e:?}")
}

impl SubstrateError {
    /// The I/O leaf for a local I/O failure, with its message.
    pub fn from_io_error(e: std::io::Error) -> (r: Self)
        ensures
            r is Io,
    {
        SubstrateError::Io(io_error_text(&e))
    }

    /// The RPC leaf for a failure of the RPC layer, keeping its message and whether it
    /// was a transport failure or asked for a restart.
    pub fn from_rpc_error(e: jsonrpsee::core::Error) -> (r: Self)
        ensures
            (r matches SubstrateError::RpcError(f) && f.kind == rpc_kind_of(e)),
    {
        SubstrateError::RpcError(RpcFailure { kind: rpc_error_kind(&e), message: rpc_error_text(&e) })
    }

    /// The decode leaf for a response that could not be decoded.
    pub fn from_codec_error(e: parity_scale_codec::Error) -> (r: Self)
        ensures
            (r matches SubstrateError::ResponseParseFailed(m) && m@ == codec_text_of(e)),
    {
        SubstrateError::ResponseParseFailed(codec_error_text(&e))
    }

    /// The internal channel leaf for a background task that panicked or was cancelled.
    pub fn from_join_error(e: tokio::task::JoinError) -> (r: Self)
        ensures
            (r matches SubstrateError::ChannelError(m) && m@ == "failed to wait tokio task: "@
                + join_text_of(e)),
    {
        let m = Self::task_wait_message(join_error_text(&e));
        SubstrateError::ChannelError(m)
    }

    /// The text of a failed wait for a task, given what the task reported.
    pub fn task_wait_message(detail: String) -> (r: String)
        ensures
            r@ == "failed to wait tokio task: "@ + detail@,
    {
        let mut m = String::from_str("failed to wait tokio task: ");
        m.append(detail.as_str());
        m
    }

    /// The internal channel leaf for a message that could not be put in a full or
    /// closed channel.
    pub fn from_try_send_error<T>(e: async_std::channel::TrySendError<T>) -> (r: Self)
        ensures
            (r matches SubstrateError::ChannelError(m) && (m@ == "`try_send` has failed: "@ + "Full(..)"@
                || m@ == "`try_send` has failed: "@ + "Closed(..)"@)),
    {
        let mut m = String::from_str("`try_send` has failed: ");
        m.append(try_send_error_debug(&e).as_str());
        SubstrateError::ChannelError(m)
    }

    /// The internal channel leaf for a receive from a closed channel.
    pub fn from_recv_error(e: async_std::channel::RecvError) -> (r: Self)
        ensures
            (r matches SubstrateError::ChannelError(m) && m@ == "`recv` has failed: "@ + "RecvError"@),
    {
        let mut m = String::from_str("`recv` has failed: ");
        m.append(recv_error_debug(&e).as_str());
        SubstrateError::ChannelError(m)
    }

    /// The invalid-transaction leaf for a transaction that the chain rejected.
    pub fn from_transaction_validity_error(
        e: sp_runtime::transaction_validity::TransactionValidityError,
    ) -> (r: Self)
        ensures
            (r matches SubstrateError::TransactionInvalid(d) && d@ == validity_debug_of(e)),
    {
        SubstrateError::TransactionInvalid(transaction_validity_debug(&e))
    }
}

} // verus!
