use vstd::prelude::*;
use vstd::string::StringExecFns;

use crate::error::{SubstrateError, Health};
use crate::text::{decimal, hex, push_decimal, push_hex};

verus! {

/// Health written as `<peers> peers (syncing)` or `<peers> peers (idle)`.
pub open spec fn health_text(h: Health) -> Seq<char> {
    decimal(h.peers as nat) + " peers ("@ + (if h.is_syncing {
        "syncing"@
    } else {
        "idle"@
    }) + ")"@
}

/// Storage keys in hexadecimal, separated by `, `.
pub open spec fn keys_text(ks: Seq<Vec<u8>>) -> Seq<char>
    decreases ks.len(),
{
    if ks.len() == 0 {
        Seq::empty()
    } else if ks.len() == 1 {
        hex(ks[0]@)
    } else {
        keys_text(ks.drop_last()) + ", "@ + hex(ks.last()@)
    }
}

/// The text of a wrapping kind: what failed, then the message of its cause.
pub open spec fn with_cause(head: Seq<char>, cause: Seq<char>) -> Seq<char> {
    head + ": "@ + cause
}

/// The human-readable message of a failure: every field it carries and, for a
/// wrapping kind, the whole message of its cause.
pub open spec fn message_of(e: SubstrateError) -> Seq<char>
    decreases e,
{
    match e {
        SubstrateError::Io(m) => "IO error: "@ + m@,
        SubstrateError::RpcError(f) => "RPC error: "@ + f.message@,
        SubstrateError::ResponseParseFailed(m) => "Response parse failed: "@ + m@,
        SubstrateError::ChannelError(m) => "Internal communication channel error: "@ + m@ + "."@,
        SubstrateError::MissingRequiredParachainHead(id, n) => "Parachain "@ + decimal(id as nat)
            + " head "@ + decimal(n as nat) + " is missing from the relay chain storage."@,
        SubstrateError::FinalityProofNotFound(n) => "Failed to find finality proof for header "@
            + decimal(n as nat) + "."@,
        SubstrateError::ClientNotSynced(h) => "Substrate client is not synced "@ + health_text(h) + "."@,
        SubstrateError::FailedToGetSystemHealth { chain, error } => with_cause(
            "Failed to get system health of "@ + chain@ + " node"@,
            message_of(*error),
        ),
        SubstrateError::FailedToReadBestFinalizedHeaderHash { chain, error } => with_cause(
            "Failed to read best finalized header hash of "@ + chain@,
            message_of(*error),
        ),
        SubstrateError::FailedToReadBestHeader { chain, error } => with_cause(
            "Failed to read best header of "@ + chain@,
            message_of(*error),
        ),
        SubstrateError::FailedToReadHeaderHashByNumber { chain, number, error } => with_cause(
            "Failed to read header hash by number "@ + number@ + " of "@ + chain@,
            message_of(*error),
        ),
        SubstrateError::FailedToReadHeaderByHash { chain, hash, error } => with_cause(
            "Failed to read header "@ + hash@ + " of "@ + chain@,
            message_of(*error),
        ),
        SubstrateError::FailedToReadBlockByHash { chain, hash, error } => with_cause(
            "Failed to read block "@ + hash@ + " of "@ + chain@,
            message_of(*error),
        ),
        SubstrateError::FailedToReadStorageValue { chain, hash, key, error } => with_cause(
            "Failed to read storage value "@ + hex(key@) + " at "@ + chain@ + " block "@ + hash@,
            message_of(*error),
        ),
        SubstrateError::FailedToReadRuntimeVersion { chain, error } => with_cause(
            "Failed to read runtime version of "@ + chain@,
            message_of(*error),
        ),
        SubstrateError::FailedToGetPendingExtrinsics { chain, error } => with_cause(
            "Failed to get pending extrinsics of "@ + chain@,
            message_of(*error),
        ),
        SubstrateError::FailedToSubmitTransaction { chain, error } => with_cause(
            "Failed to submit "@ + chain@ + " transaction"@,
            message_of(*error),
        ),
        SubstrateError::FailedStateCall { chain, hash, method, arguments, error } => with_cause(
            "Runtime call "@ + method@ + " with arguments "@ + hex(arguments@) + " of chain "@
                + chain@ + " at "@ + hash@ + " has failed"@,
            message_of(*error),
        ),
        SubstrateError::FailedToProveStorage { chain, hash, storage_keys, error } => with_cause(
            "Failed to prove storage keys ["@ + keys_text(storage_keys@) + "] of "@ + chain@
                + " at "@ + hash@,
            message_of(*error),
        ),
        SubstrateError::FailedToSubscribeJustifications { chain, error } => with_cause(
            "Failed to subscribe to "@ + chain@ + " justifications"@,
            message_of(*error),
        ),
        SubstrateError::BridgePalletIsHalted => "Bridge pallet is halted."@,
        SubstrateError::BridgePalletIsNotInitialized => "Bridge pallet is not initialized."@,
        SubstrateError::TransactionInvalid(d) => "Substrate transaction is invalid: "@ + d@,
        SubstrateError::Custom(m) => m@,
    }
}

/// `head`, then `: ` and the message of the cause.
fn finish(head: String, cause: String) -> (r: String)
    ensures
        r@ == with_cause(head@, cause@),
{
    let mut s = head;
    s.append(": ");
    s.append(cause.as_str());
    s
}

/// `a` followed by `b`.
fn joined(a: &str, b: &str) -> (r: String)
    ensures
        r@ == a@ + b@,
{
    let mut s = String::from_str(a);
    s.append(b);
    s
}

/// Appends the storage keys in hexadecimal, separated by `, `.
fn push_keys(s: &mut String, ks: &Vec<Vec<u8>>)
    ensures
        final(s)@ == old(s)@ + keys_text(ks@),
{
    let mut i: usize = 0;
    while i < ks.len()
        invariant
            i <= ks@.len(),
            s@ == old(s)@ + keys_text(ks@.subrange(0, i as int)),
        decreases ks@.len() - i,
    {
        if i > 0 {
            s.append(", ");
        }
        push_hex(s, &ks[i]);
        proof {
            let next = ks@.subrange(0, i + 1);
            assert(next.drop_last() =~= ks@.subrange(0, i as int));
            if i == 0 {
                assert(keys_text(ks@.subrange(0, 0)) =~= Seq::<char>::empty());
                assert(s@ =~= old(s)@ + keys_text(next));
            } else {
                assert(s@ =~= old(s)@ + keys_text(next));
            }
        }
        i = i + 1;
    }
    assert(ks@.subrange(0, ks@.len() as int) =~= ks@);
}

impl SubstrateError {
    /// The human-readable message of the error, including every field it carries and
    /// the message of its cause.
    pub fn message(&self) -> (r: String)
        ensures
            r@ == message_of(*self),
        decreases self,
    {
        match self {
            SubstrateError::Io(m) => joined("IO error: ", m.as_str()),
            SubstrateError::RpcError(f) => joined("RPC error: ", f.message.as_str()),
            SubstrateError::ResponseParseFailed(m) => joined("Response parse failed: ", m.as_str()),
            SubstrateError::ChannelError(m) => {
                let mut s = joined("Internal communication channel error: ", m.as_str());
                s.append(".");
                s
            },
            SubstrateError::MissingRequiredParachainHead(id, n) => {
                let mut s = String::from_str("Parachain ");
                push_decimal(&mut s, *id as u64);
                s.append(" head ");
                push_decimal(&mut s, *n);
                s.append(" is missing from the relay chain storage.");
                s
            },
            SubstrateError::FinalityProofNotFound(n) => {
                let mut s = String::from_str("Failed to find finality proof for header ");
                push_decimal(&mut s, *n);
                s.append(".");
                s
            },
            SubstrateError::ClientNotSynced(h) => {
                let mut s = String::from_str("Substrate client is not synced ");
                push_decimal(&mut s, h.peers);
                s.append(" peers (");
                if h.is_syncing {
                    s.append("syncing");
                } else {
                    s.append("idle");
                }
                s.append(").");
                proof {
                    reveal_strlit(").");
                    reveal_strlit(")");
                    reveal_strlit(".");
                }
                assert(s@ =~= message_of(*self));
                s
            },
            SubstrateError::FailedToGetSystemHealth { chain, error } => {
                let mut h = joined("Failed to get system health of ", chain.as_str());
                h.append(" node");
                finish(h, error.message())
            },
            SubstrateError::FailedToReadBestFinalizedHeaderHash { chain, error } => finish(
                joined("Failed to read best finalized header hash of ", chain.as_str()),
                error.message(),
            ),
            SubstrateError::FailedToReadBestHeader { chain, error } => finish(
                joined("Failed to read best header of ", chain.as_str()),
                error.message(),
            ),
            SubstrateError::FailedToReadHeaderHashByNumber { chain, number, error } => {
                let mut h = joined("Failed to read header hash by number ", number.as_str());
                h.append(" of ");
                h.append(chain.as_str());
                finish(h, error.message())
            },
            SubstrateError::FailedToReadHeaderByHash { chain, hash, error } => {
                let mut h = joined("Failed to read header ", hash.as_str());
                h.append(" of ");
                h.append(chain.as_str());
                finish(h, error.message())
            },
            SubstrateError::FailedToReadBlockByHash { chain, hash, error } => {
                let mut h = joined("Failed to read block ", hash.as_str());
                h.append(" of ");
                h.append(chain.as_str());
                finish(h, error.message())
            },
            SubstrateError::FailedToReadStorageValue { chain, hash, key, error } => {
                let mut h = String::from_str("Failed to read storage value ");
                push_hex(&mut h, key);
                h.append(" at ");
                h.append(chain.as_str());
                h.append(" block ");
                h.append(hash.as_str());
                finish(h, error.message())
            },
            SubstrateError::FailedToReadRuntimeVersion { chain, error } => finish(
                joined("Failed to read runtime version of ", chain.as_str()),
                error.message(),
            ),
            SubstrateError::FailedToGetPendingExtrinsics { chain, error } => finish(
                joined("Failed to get pending extrinsics of ", chain.as_str()),
                error.message(),
            ),
            SubstrateError::FailedToSubmitTransaction { chain, error } => {
                let mut h = joined("Failed to submit ", chain.as_str());
                h.append(" transaction");
                finish(h, error.message())
            },
            SubstrateError::FailedStateCall { chain, hash, method, arguments, error } => {
                let mut h = joined("Runtime call ", method.as_str());
                h.append(" with arguments ");
                push_hex(&mut h, arguments);
                h.append(" of chain ");
                h.append(chain.as_str());
                h.append(" at ");
                h.append(hash.as_str());
                h.append(" has failed");
                finish(h, error.message())
            },
            SubstrateError::FailedToProveStorage { chain, hash, storage_keys, error } => {
                let mut h = String::from_str("Failed to prove storage keys [");
                push_keys(&mut h, storage_keys);
                h.append("] of ");
                h.append(chain.as_str());
                h.append(" at ");
                h.append(hash.as_str());
                finish(h, error.message())
            },
            SubstrateError::FailedToSubscribeJustifications { chain, error } => {
                let mut h = joined("Failed to subscribe to ", chain.as_str());
                h.append(" justifications");
                finish(h, error.message())
            },
            SubstrateError::BridgePalletIsHalted => String::from_str("Bridge pallet is halted."),
            SubstrateError::BridgePalletIsNotInitialized => String::from_str(
                "Bridge pallet is not initialized.",
            ),
            SubstrateError::TransactionInvalid(d) => joined("Substrate transaction is invalid: ", d.as_str()),
            SubstrateError::Custom(m) => m.clone(),
        }
    }
}

} // verus!
