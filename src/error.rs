use vstd::prelude::*;
use vstd::string::StringExecFns;

use crate::text::{decimal, to_decimal};

verus! {

/// Which kind of failure an RPC-transport error was, as far as reconnecting goes.
#[derive(Clone, Copy, Debug, PartialEq, Eq, Structural)]
pub enum RpcErrorKind {
    /// Networking or low-level protocol failure.
    Transport,
    /// The background task of the client has stopped; it must be restarted.
    RestartNeeded,
    /// Any other failure reported by the RPC layer.
    Other,
}

/// A failure reported by the RPC layer: its kind and its message.
#[derive(Debug)]
pub struct RpcFailure {
    pub kind: RpcErrorKind,
    pub message: String,
}

/// Health of the node, as reported by its `system_health` call.
#[derive(Clone, Copy, Debug, PartialEq, Eq, Structural)]
pub struct Health {
    /// Number of connected peers.
    pub peers: u64,
    /// Whether the node is syncing.
    pub is_syncing: bool,
    /// Whether the node should be connected to peers.
    pub should_have_peers: bool,
}

/// Errors that can occur when interacting with a Substrate node through RPC.
///
/// The variants without an `error` field are leaves; every other variant names the
/// operation that failed, carries its context and owns the cause of the failure.
#[derive(Debug)]
pub enum SubstrateError {
    /// IO error, with its message.
    Io(String),
    /// An error that can occur when making a request to a JSON-RPC server.
    RpcError(RpcFailure),
    /// The response from the server could not be SCALE decoded.
    ResponseParseFailed(String),
    /// Internal channel error - communication channel is either closed, or full.
    /// It can be solved with reconnect.
    ChannelError(String),
    /// Required parachain head (parachain id, head number) is not present at the relay chain.
    MissingRequiredParachainHead(u32, u64),
    /// Failed to find finality proof for the header with given number.
    FinalityProofNotFound(u64),
    /// The client we're connected to is not synced, so we can't rely on its state.
    ClientNotSynced(Health),
    /// Failed to get system health.
    FailedToGetSystemHealth {
        /// Name of the chain where the error has happened.
        chain: String,
        /// Underlying error.
        error: Box<SubstrateError>,
    },
    /// Failed to read best finalized header hash from given chain.
    FailedToReadBestFinalizedHeaderHash {
        /// Name of the chain where the error has happened.
        chain: String,
        /// Underlying error.
        error: Box<SubstrateError>,
    },
    /// Failed to read best header from given chain.
    FailedToReadBestHeader {
        /// Name of the chain where the error has happened.
        chain: String,
        /// Underlying error.
        error: Box<SubstrateError>,
    },
    /// Failed to read header hash by number from given chain.
    FailedToReadHeaderHashByNumber {
        /// Name of the chain where the error has happened.
        chain: String,
        /// Number of the header we've tried to read, in decimal.
        number: String,
        /// Underlying error.
        error: Box<SubstrateError>,
    },
    /// Failed to read header by hash from given chain.
    FailedToReadHeaderByHash {
        /// Name of the chain where the error has happened.
        chain: String,
        /// Hash of the header we've tried to read.
        hash: String,
        /// Underlying error.
        error: Box<SubstrateError>,
    },
    /// Failed to read block by hash from given chain.
    FailedToReadBlockByHash {
        /// Name of the chain where the error has happened.
        chain: String,
        /// Hash of the block we've tried to read.
        hash: String,
        /// Underlying error.
        error: Box<SubstrateError>,
    },
    /// Failed to read storage value at given chain.
    FailedToReadStorageValue {
        /// Name of the chain where the error has happened.
        chain: String,
        /// Hash of the block we've tried to read value from.
        hash: String,
        /// Runtime storage key.
        key: Vec<u8>,
        /// Underlying error.
        error: Box<SubstrateError>,
    },
    /// Failed to read runtime version of given chain.
    FailedToReadRuntimeVersion {
        /// Name of the chain where the error has happened.
        chain: String,
        /// Underlying error.
        error: Box<SubstrateError>,
    },
    /// Failed to get pending extrinsics.
    FailedToGetPendingExtrinsics {
        /// Name of the chain where the error has happened.
        chain: String,
        /// Underlying error.
        error: Box<SubstrateError>,
    },
    /// Failed to submit transaction.
    FailedToSubmitTransaction {
        /// Name of the chain where the error has happened.
        chain: String,
        /// Underlying error.
        error: Box<SubstrateError>,
    },
    /// Runtime call has failed.
    FailedStateCall {
        /// Name of the chain where the error has happened.
        chain: String,
        /// Hash of the block we've tried to call at.
        hash: String,
        /// Runtime API method.
        method: String,
        /// Encoded method arguments.
        arguments: Vec<u8>,
        /// Underlying error.
        error: Box<SubstrateError>,
    },
    /// Failed to prove storage keys.
    FailedToProveStorage {
        /// Name of the chain where the error has happened.
        chain: String,
        /// Hash of the block we've tried to prove keys at.
        hash: String,
        /// Storage keys we have tried to prove.
        storage_keys: Vec<Vec<u8>>,
        /// Underlying error.
        error: Box<SubstrateError>,
    },
    /// Failed to subscribe to GRANDPA justifications stream.
    FailedToSubscribeJustifications {
        /// Name of the chain where the error has happened.
        chain: String,
        /// Underlying error.
        error: Box<SubstrateError>,
    },
    /// The bridge pallet is halted and all transactions will be rejected.
    BridgePalletIsHalted,
    /// The bridge pallet is not yet initialized and all transactions will be rejected.
    BridgePalletIsNotInitialized,
    /// The Substrate transaction is invalid, with the reason of the rejection.
    TransactionInvalid(String),
    /// Custom logic error.
    Custom(String),
}

/// The cause that a wrapping kind owns; `None` for a leaf.
pub open spec fn cause_of(e: SubstrateError) -> Option<SubstrateError> {
    match e {
        SubstrateError::FailedToGetSystemHealth { error, .. } => Some(*error),
        SubstrateError::FailedToReadBestFinalizedHeaderHash { error, .. } => Some(*error),
        SubstrateError::FailedToReadBestHeader { error, .. } => Some(*error),
        SubstrateError::FailedToReadHeaderHashByNumber { error, .. } => Some(*error),
        SubstrateError::FailedToReadHeaderByHash { error, .. } => Some(*error),
        SubstrateError::FailedToReadBlockByHash { error, .. } => Some(*error),
        SubstrateError::FailedToReadStorageValue { error, .. } => Some(*error),
        SubstrateError::FailedToReadRuntimeVersion { error, .. } => Some(*error),
        SubstrateError::FailedToGetPendingExtrinsics { error, .. } => Some(*error),
        SubstrateError::FailedToSubmitTransaction { error, .. } => Some(*error),
        SubstrateError::FailedStateCall { error, .. } => Some(*error),
        SubstrateError::FailedToProveStorage { error, .. } => Some(*error),
        SubstrateError::FailedToSubscribeJustifications { error, .. } => Some(*error),
        _ => None,
    }
}

/// The leaf kinds: those that carry no cause.
pub open spec fn is_leaf(e: SubstrateError) -> bool {
    ||| e is Io
    ||| e is RpcError
    ||| e is ResponseParseFailed
    ||| e is ChannelError
    ||| e is MissingRequiredParachainHead
    ||| e is FinalityProofNotFound
    ||| e is ClientNotSynced
    ||| e is BridgePalletIsHalted
    ||| e is BridgePalletIsNotInitialized
    ||| e is TransactionInvalid
    ||| e is Custom
}

/// Whether a failure means that the connection to the node is unusable: an internal
/// channel failure, a transport failure or a needed restart of the RPC client, or a
/// node that is not synced; a wrapping kind is one when its cause is one.
pub open spec fn connection_error(e: SubstrateError) -> bool
    decreases e,
{
    match e {
        SubstrateError::ChannelError(_) => true,
        SubstrateError::RpcError(f) => f.kind is Transport || f.kind is RestartNeeded,
        SubstrateError::ClientNotSynced(_) => true,
        SubstrateError::FailedToGetSystemHealth { error, .. } => connection_error(*error),
        SubstrateError::FailedToReadBestFinalizedHeaderHash { error, .. } => connection_error(*error),
        SubstrateError::FailedToReadBestHeader { error, .. } => connection_error(*error),
        SubstrateError::FailedToReadHeaderHashByNumber { error, .. } => connection_error(*error),
        SubstrateError::FailedToReadHeaderByHash { error, .. } => connection_error(*error),
        SubstrateError::FailedToReadBlockByHash { error, .. } => connection_error(*error),
        SubstrateError::FailedToReadStorageValue { error, .. } => connection_error(*error),
        SubstrateError::FailedToReadRuntimeVersion { error, .. } => connection_error(*error),
        SubstrateError::FailedToGetPendingExtrinsics { error, .. } => connection_error(*error),
        SubstrateError::FailedToSubmitTransaction { error, .. } => connection_error(*error),
        SubstrateError::FailedStateCall { error, .. } => connection_error(*error),
        SubstrateError::FailedToProveStorage { error, .. } => connection_error(*error),
        SubstrateError::FailedToSubscribeJustifications { error, .. } => connection_error(*error),
        _ => false,
    }
}

/// Number of wrapping kinds between a failure and the leaf at the end of its chain.
pub open spec fn depth(e: SubstrateError) -> nat
    decreases e,
{
    match e {
        SubstrateError::FailedToGetSystemHealth { error, .. } => depth(*error) + 1,
        SubstrateError::FailedToReadBestFinalizedHeaderHash { error, .. } => depth(*error) + 1,
        SubstrateError::FailedToReadBestHeader { error, .. } => depth(*error) + 1,
        SubstrateError::FailedToReadHeaderHashByNumber { error, .. } => depth(*error) + 1,
        SubstrateError::FailedToReadHeaderByHash { error, .. } => depth(*error) + 1,
        SubstrateError::FailedToReadBlockByHash { error, .. } => depth(*error) + 1,
        SubstrateError::FailedToReadStorageValue { error, .. } => depth(*error) + 1,
        SubstrateError::FailedToReadRuntimeVersion { error, .. } => depth(*error) + 1,
        SubstrateError::FailedToGetPendingExtrinsics { error, .. } => depth(*error) + 1,
        SubstrateError::FailedToSubmitTransaction { error, .. } => depth(*error) + 1,
        SubstrateError::FailedStateCall { error, .. } => depth(*error) + 1,
        SubstrateError::FailedToProveStorage { error, .. } => depth(*error) + 1,
        SubstrateError::FailedToSubscribeJustifications { error, .. } => depth(*error) + 1,
        _ => 0,
    }
}

impl SubstrateError {
    /// Box the error.
    pub fn boxed(self) -> (r: Box<Self>)
        ensures
            *r == self,
    {
        Box::new(self)
    }

    /// Returns nested error reference.
    pub fn nested(&self) -> (r: Option<&Self>)
        ensures
            r matches Some(c) ==> cause_of(*self) == Some(*c),
            r is None <==> cause_of(*self) is None,
    {
        match self {
            SubstrateError::FailedToReadBestFinalizedHeaderHash { error, .. } => Some(&**error),
            SubstrateError::FailedToReadBestHeader { error, .. } => Some(&**error),
            SubstrateError::FailedToReadHeaderHashByNumber { error, .. } => Some(&**error),
            SubstrateError::FailedToReadHeaderByHash { error, .. } => Some(&**error),
            SubstrateError::FailedToReadBlockByHash { error, .. } => Some(&**error),
            SubstrateError::FailedToReadStorageValue { error, .. } => Some(&**error),
            SubstrateError::FailedToReadRuntimeVersion { error, .. } => Some(&**error),
            SubstrateError::FailedToGetPendingExtrinsics { error, .. } => Some(&**error),
            SubstrateError::FailedToSubmitTransaction { error, .. } => Some(&**error),
            SubstrateError::FailedStateCall { error, .. } => Some(&**error),
            SubstrateError::FailedToProveStorage { error, .. } => Some(&**error),
            SubstrateError::FailedToGetSystemHealth { error, .. } => Some(&**error),
            SubstrateError::FailedToSubscribeJustifications { error, .. } => Some(&**error),
            _ => None,
        }
    }

    /// Constructs `FailedToReadHeaderHashByNumber` variant; the number is kept in decimal.
    pub fn failed_to_read_header_hash_by_number(
        chain: &str,
        number: u64,
        e: SubstrateError,
    ) -> (r: Self)
        ensures
            (r matches SubstrateError::FailedToReadHeaderHashByNumber { chain: c, number: n, error }
                && c@ == chain@ && n@ == decimal(number as nat) && *error == e),
            cause_of(r) == Some(e),
            connection_error(r) == connection_error(e),
            depth(r) == depth(e) + 1,
    {
        SubstrateError::FailedToReadHeaderHashByNumber {
            chain: String::from_str(chain),
            number: to_decimal(number),
            error: e.boxed(),
        }
    }

    /// Constructs `FailedToReadHeaderByHash` variant.
    pub fn failed_to_read_header_by_hash(chain: &str, hash: &str, e: SubstrateError) -> (r: Self)
        ensures
            (r matches SubstrateError::FailedToReadHeaderByHash { chain: c, hash: h, error }
                && c@ == chain@ && h@ == hash@ && *error == e),
            cause_of(r) == Some(e),
            connection_error(r) == connection_error(e),
            depth(r) == depth(e) + 1,
    {
        SubstrateError::FailedToReadHeaderByHash {
            chain: String::from_str(chain),
            hash: String::from_str(hash),
            error: e.boxed(),
        }
    }

    /// Constructs `FailedToReadBlockByHash` variant. Reading a block is an operation of
    /// its own, so its failure is not reported as a failed header read.
    pub fn failed_to_read_block_by_hash(chain: &str, hash: &str, e: SubstrateError) -> (r: Self)
        ensures
            (r matches SubstrateError::FailedToReadBlockByHash { chain: c, hash: h, error }
                && c@ == chain@ && h@ == hash@ && *error == e),
            cause_of(r) == Some(e),
            connection_error(r) == connection_error(e),
            depth(r) == depth(e) + 1,
    {
        SubstrateError::FailedToReadBlockByHash {
            chain: String::from_str(chain),
            hash: String::from_str(hash),
            error: e.boxed(),
        }
    }

    /// Constructs `FailedToReadStorageValue` variant.
    pub fn failed_to_read_storage_value(
        chain: &str,
        at: &str,
        key: Vec<u8>,
        e: SubstrateError,
    ) -> (r: Self)
        ensures
            (r matches SubstrateError::FailedToReadStorageValue { chain: c, hash: h, key: k, error }
                && c@ == chain@ && h@ == at@ && k@ == key@ && *error == e),
            cause_of(r) == Some(e),
            connection_error(r) == connection_error(e),
            depth(r) == depth(e) + 1,
    {
        SubstrateError::FailedToReadStorageValue {
            chain: String::from_str(chain),
            hash: String::from_str(at),
            key,
            error: e.boxed(),
        }
    }

    /// Constructs `FailedStateCall` variant.
    pub fn failed_state_call(
        chain: &str,
        at: &str,
        method: String,
        arguments: Vec<u8>,
        e: SubstrateError,
    ) -> (r: Self)
        ensures
            (r matches SubstrateError::FailedStateCall { chain: c, hash: h, method: m, arguments: a, error }
                && c@ == chain@ && h@ == at@ && m@ == method@ && a@ == arguments@ && *error == e),
            cause_of(r) == Some(e),
            connection_error(r) == connection_error(e),
            depth(r) == depth(e) + 1,
    {
        SubstrateError::FailedStateCall {
            chain: String::from_str(chain),
            hash: String::from_str(at),
            method,
            arguments,
            error: e.boxed(),
        }
    }

    /// Constructs `FailedToProveStorage` variant.
    pub fn failed_to_prove_storage(
        chain: &str,
        at: &str,
        storage_keys: Vec<Vec<u8>>,
        e: SubstrateError,
    ) -> (r: Self)
        ensures
            (r matches SubstrateError::FailedToProveStorage { chain: c, hash: h, storage_keys: k, error }
                && c@ == chain@ && h@ == at@ && k == storage_keys && *error == e),
            cause_of(r) == Some(e),
            connection_error(r) == connection_error(e),
            depth(r) == depth(e) + 1,
    {
        SubstrateError::FailedToProveStorage {
            chain: String::from_str(chain),
            hash: String::from_str(at),
            storage_keys,
            error: e.boxed(),
        }
    }

    /// Constructs `FailedToReadBestFinalizedHeaderHash` variant.
    pub fn failed_to_read_best_finalized_header_hash(chain: &str, e: SubstrateError) -> (r: Self)
        ensures
            (r matches SubstrateError::FailedToReadBestFinalizedHeaderHash { chain: c, error } && c@ == chain@ && *error == e),
            cause_of(r) == Some(e),
            connection_error(r) == connection_error(e),
            depth(r) == depth(e) + 1,
    {
        SubstrateError::FailedToReadBestFinalizedHeaderHash { chain: String::from_str(chain), error: e.boxed() }
    }

    /// Constructs `FailedToReadBestHeader` variant.
    pub fn failed_to_read_best_header(chain: &str, e: SubstrateError) -> (r: Self)
        ensures
            (r matches SubstrateError::FailedToReadBestHeader { chain: c, error } && c@ == chain@ && *error == e),
            cause_of(r) == Some(e),
            connection_error(r) == connection_error(e),
            depth(r) == depth(e) + 1,
    {
        SubstrateError::FailedToReadBestHeader { chain: String::from_str(chain), error: e.boxed() }
    }

    /// Constructs `FailedToReadRuntimeVersion` variant.
    pub fn failed_to_read_runtime_version(chain: &str, e: SubstrateError) -> (r: Self)
        ensures
            (r matches SubstrateError::FailedToReadRuntimeVersion { chain: c, error } && c@ == chain@ && *error == e),
            cause_of(r) == Some(e),
            connection_error(r) == connection_error(e),
            depth(r) == depth(e) + 1,
    {
        SubstrateError::FailedToReadRuntimeVersion { chain: String::from_str(chain), error: e.boxed() }
    }

    /// Constructs `FailedToGetPendingExtrinsics` variant.
    pub fn failed_to_get_pending_extrinsics(chain: &str, e: SubstrateError) -> (r: Self)
        ensures
            (r matches SubstrateError::FailedToGetPendingExtrinsics { chain: c, error } && c@ == chain@ && *error == e),
            cause_of(r) == Some(e),
            connection_error(r) == connection_error(e),
            depth(r) == depth(e) + 1,
    {
        SubstrateError::FailedToGetPendingExtrinsics { chain: String::from_str(chain), error: e.boxed() }
    }

    /// Constructs `FailedToSubmitTransaction` variant.
    pub fn failed_to_submit_transaction(chain: &str, e: SubstrateError) -> (r: Self)
        ensures
            (r matches SubstrateError::FailedToSubmitTransaction { chain: c, error } && c@ == chain@ && *error == e),
            cause_of(r) == Some(e),
            connection_error(r) == connection_error(e),
            depth(r) == depth(e) + 1,
    {
        SubstrateError::FailedToSubmitTransaction { chain: String::from_str(chain), error: e.boxed() }
    }

    /// Constructs `FailedToGetSystemHealth` variant.
    pub fn failed_to_get_system_health(chain: &str, e: SubstrateError) -> (r: Self)
        ensures
            (r matches SubstrateError::FailedToGetSystemHealth { chain: c, error } && c@ == chain@ && *error == e),
            cause_of(r) == Some(e),
            connection_error(r) == connection_error(e),
            depth(r) == depth(e) + 1,
    {
        SubstrateError::FailedToGetSystemHealth { chain: String::from_str(chain), error: e.boxed() }
    }

    /// Constructs `FailedToSubscribeJustifications` variant.
    pub fn failed_to_subscribe_justification(chain: &str, e: SubstrateError) -> (r: Self)
        ensures
            (r matches SubstrateError::FailedToSubscribeJustifications { chain: c, error } && c@ == chain@ && *error == e),
            cause_of(r) == Some(e),
            connection_error(r) == connection_error(e),
            depth(r) == depth(e) + 1,
    {
        SubstrateError::FailedToSubscribeJustifications { chain: String::from_str(chain), error: e.boxed() }
    }

    /// Whether the error means that the connection to the node is unusable and should
    /// be re-established. Defined for every error, however deeply wrapped.
    pub fn is_connection_error(&self) -> (r: bool)
        ensures
            r == connection_error(*self),
        decreases depth(*self),
    {
        match self {
            SubstrateError::ChannelError(_) => true,
            SubstrateError::RpcError(f) => match f.kind {
                RpcErrorKind::Transport | RpcErrorKind::RestartNeeded => true,
                RpcErrorKind::Other => false,
            },
            SubstrateError::ClientNotSynced(_) => true,
            _ => match self.nested() {
                Some(e) => {
                    proof {
                        lemma_cause_connection_error(*self);
                    }
                    e.is_connection_error()
                },
                None => {
                    proof {
                        lemma_cause_connection_error(*self);
                    }
                    false
                },
            },
        }
    }

    /// The failure at the end of the chain of causes: `nested` is followed until it
    /// returns nothing, which happens after `depth` steps.
    pub fn root_cause(&self) -> (r: &Self)
        ensures
            cause_after(*self, depth(*self)) == Some(*r),
            is_leaf(*r),
    {
        let mut cur: &SubstrateError = self;
        let ghost mut steps: nat = 0;
        loop
            invariant
                cause_after(*self, steps) == Some(*cur),
                steps + depth(*cur) == depth(*self),
            decreases depth(*cur),
        {
            proof {
                lemma_cause_connection_error(*cur);
            }
            match cur.nested() {
                Some(next) => {
                    proof {
                        lemma_cause_after_step(*self, steps, *cur, *next);
                        steps = steps + 1;
                    }
                    cur = next;
                },
                None => {
                    return cur;
                },
            }
        }
    }
}

/// A wrapping kind is one level deeper than its cause, and is a connection error
/// exactly when its cause is one; a leaf has depth zero.
pub proof fn lemma_cause_connection_error(e: SubstrateError)
    ensures
        cause_of(e) matches Some(c) ==> depth(c) + 1 == depth(e) && (connection_error(e)
            == connection_error(c)),
        cause_of(e) is None ==> depth(e) == 0,
        cause_of(e) is None <==> is_leaf(e),
{
}

/// The failure reached after `n` steps along the chain of causes, if the chain is
/// that long.
pub open spec fn cause_after(e: SubstrateError, n: nat) -> Option<SubstrateError>
    decreases n,
{
    if n == 0 {
        Some(e)
    } else {
        match cause_of(e) {
            Some(c) => cause_after(c, (n - 1) as nat),
            None => None,
        }
    }
}

/// One more step along the chain of causes reaches the cause of the failure reached
/// so far.
pub proof fn lemma_cause_after_step(e: SubstrateError, k: nat, x: SubstrateError, y: SubstrateError)
    requires
        cause_after(e, k) == Some(x),
        cause_of(x) == Some(y),
    ensures
        cause_after(e, k + 1) == Some(y),
    decreases k,
{
    if k > 0 {
        let c = cause_of(e)->0;
        lemma_cause_after_step(c, (k - 1) as nat, x, y);
        assert(cause_after(e, k + 1) == cause_after(c, k));
    } else {
        assert(cause_after(y, 0) == Some(y));
    }
}

/// A leaf kind has no nested cause.
pub proof fn lemma_leaf_has_no_cause(e: SubstrateError)
    requires
        is_leaf(e),
    ensures
        cause_of(e) is None,
{
}

/// Wrapping a connection error in the context of an operation gives a connection
/// error again.
pub proof fn lemma_wrap_keeps_connection_error(wrapped: SubstrateError, cause: SubstrateError)
    requires
        cause_of(wrapped) == Some(cause),
        connection_error(cause),
    ensures
        connection_error(wrapped),
{
    lemma_cause_connection_error(wrapped);
}

/// I/O and decode failures, and the domain leaves other than an unsynced node, are
/// never connection errors.
pub proof fn lemma_other_leaves_not_connection_errors(e: SubstrateError)
    requires
        e is Io || e is ResponseParseFailed || e is MissingRequiredParachainHead
            || e is FinalityProofNotFound || e is BridgePalletIsHalted
            || e is BridgePalletIsNotInitialized || e is TransactionInvalid || e is Custom,
    ensures
        !connection_error(e),
{
}

/// Following the chain of causes from any failure meets a wrapping kind at each of
/// the first `depth(e)` steps, reaches a leaf after exactly `depth(e)` steps, and
/// stops there: the walk never loops.
pub proof fn lemma_chain_ends_at_leaf(e: SubstrateError)
    ensures
        cause_after(e, depth(e)) matches Some(l) && is_leaf(l),
        forall|k: nat| #[trigger] cause_after(e, k) is Some <==> k <= depth(e),
        forall|k: nat|
            k < depth(e) ==> (#[trigger] cause_after(e, k) matches Some(w) && !is_leaf(w)),
    decreases depth(e),
{
    lemma_cause_connection_error(e);
    match cause_of(e) {
        Some(c) => {
            lemma_chain_ends_at_leaf(c);
            assert forall|k: nat| #[trigger] cause_after(e, k) is Some <==> k <= depth(e) by {
                if k > 0 {
                    assert(cause_after(e, k) == cause_after(c, (k - 1) as nat));
                }
            }
            assert forall|k: nat|
                k < depth(e) implies (#[trigger] cause_after(e, k) matches Some(w) && !is_leaf(
                w,
            )) by {
                if k > 0 {
                    assert(cause_after(e, k) == cause_after(c, (k - 1) as nat));
                }
            }
        },
        None => {
            assert forall|k: nat| #[trigger] cause_after(e, k) is Some <==> k <= depth(e) by {
            }
        },
    }
}

} // verus!
