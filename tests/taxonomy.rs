use relay_substrate_client::{Health, RpcErrorKind, RpcFailure, SubstrateError};

fn io(m: &str) -> SubstrateError {
    SubstrateError::Io(m.to_string())
}

fn rpc(kind: RpcErrorKind, m: &str) -> SubstrateError {
    SubstrateError::RpcError(RpcFailure { kind, message: m.to_string() })
}

fn not_synced() -> SubstrateError {
    SubstrateError::ClientNotSynced(Health { peers: 3, is_syncing: true, should_have_peers: true })
}

fn leaves() -> Vec<SubstrateError> {
    vec![
        io("broken pipe"),
        rpc(RpcErrorKind::Transport, "down"),
        rpc(RpcErrorKind::RestartNeeded, "restart"),
        rpc(RpcErrorKind::Other, "other"),
        SubstrateError::ResponseParseFailed("bad".to_string()),
        SubstrateError::ChannelError("closed".to_string()),
        SubstrateError::MissingRequiredParachainHead(1000, 42),
        SubstrateError::FinalityProofNotFound(7),
        not_synced(),
        SubstrateError::BridgePalletIsHalted,
        SubstrateError::BridgePalletIsNotInitialized,
        SubstrateError::TransactionInvalid("Invalid(Payment)".to_string()),
        SubstrateError::Custom("custom".to_string()),
    ]
}

fn wraps(chain: &str, e: fn() -> SubstrateError) -> Vec<SubstrateError> {
    vec![
        SubstrateError::failed_to_read_header_hash_by_number(chain, 10, e()),
        SubstrateError::failed_to_read_header_by_hash(chain, "0x01", e()),
        SubstrateError::failed_to_read_block_by_hash(chain, "0x02", e()),
        SubstrateError::failed_to_read_best_finalized_header_hash(chain, e()),
        SubstrateError::failed_to_read_best_header(chain, e()),
        SubstrateError::failed_to_read_runtime_version(chain, e()),
        SubstrateError::failed_to_read_storage_value(chain, "0xabc", vec![1], e()),
        SubstrateError::failed_to_get_pending_extrinsics(chain, e()),
        SubstrateError::failed_to_submit_transaction(chain, e()),
        SubstrateError::failed_state_call(chain, "0xabc", "M".to_string(), vec![2], e()),
        SubstrateError::failed_to_prove_storage(chain, "0xabc", vec![vec![3]], e()),
        SubstrateError::failed_to_get_system_health(chain, e()),
        SubstrateError::failed_to_subscribe_justification(chain, e()),
    ]
}

fn custom_cause() -> SubstrateError {
    SubstrateError::Custom("cause".to_string())
}

fn channel_cause() -> SubstrateError {
    SubstrateError::ChannelError("closed".to_string())
}

#[test]
fn leaves_have_no_nested() {
    for leaf in leaves() {
        assert!(leaf.nested().is_none());
    }
}

#[test]
fn wraps_return_their_cause() {
    for w in wraps("Kusama", custom_cause) {
        let n = w.nested().expect("a wrap has a cause");
        assert_eq!(n.message(), "cause");
        assert!(n.nested().is_none());
    }
}

#[test]
fn classifier_on_leaves() {
    let expected = [
        false, true, true, false, false, true, false, false, true, false, false, false, false,
    ];
    for (leaf, want) in leaves().iter().zip(expected) {
        assert_eq!(leaf.is_connection_error(), want, "{}", leaf.message());
    }
}

#[test]
fn classifier_on_deep_chains() {
    let mut e = channel_cause();
    for i in 0..200u64 {
        e = SubstrateError::failed_to_read_header_hash_by_number("Rialto", i, e);
    }
    assert!(e.is_connection_error());
    let mut f = io("x");
    for _ in 0..200 {
        f = SubstrateError::failed_to_read_best_header("Rialto", f);
    }
    assert!(!f.is_connection_error());
}

#[test]
fn wrapping_keeps_connection_error() {
    for w in wraps("Millau", channel_cause) {
        assert!(w.is_connection_error());
    }
    for w in wraps("Millau", custom_cause) {
        assert!(!w.is_connection_error());
    }
}

#[test]
fn negative_leaves_stay_negative() {
    let negatives = vec![
        io("broken pipe"),
        SubstrateError::ResponseParseFailed("bad".to_string()),
        SubstrateError::MissingRequiredParachainHead(1, 2),
        SubstrateError::FinalityProofNotFound(3),
        SubstrateError::BridgePalletIsHalted,
        SubstrateError::BridgePalletIsNotInitialized,
        SubstrateError::TransactionInvalid("x".to_string()),
        SubstrateError::Custom("y".to_string()),
    ];
    for e in negatives {
        assert!(!e.is_connection_error());
    }
}

#[test]
fn storage_value_scenario() {
    let e = SubstrateError::failed_to_read_storage_value("Kusama", "0xabc", vec![0x01], io("broken pipe"));
    let n = e.nested().unwrap();
    assert!(matches!(n, SubstrateError::Io(m) if m == "broken pipe"));
    assert!(!e.is_connection_error());
    let m = e.message();
    assert!(m.contains("Kusama"));
    assert!(m.contains("0xabc"));
    assert!(m.contains("broken pipe"));
    assert_eq!(
        m,
        "Failed to read storage value 0x01 at Kusama block 0xabc: IO error: broken pipe"
    );
}

#[test]
fn state_call_restart_scenario() {
    let e = SubstrateError::failed_state_call(
        "Kusama",
        "0xabc",
        "AuraApi_slot_duration".to_string(),
        vec![],
        rpc(RpcErrorKind::RestartNeeded, "stopped"),
    );
    assert!(e.is_connection_error());
    match &e {
        SubstrateError::FailedStateCall { method, chain, hash, arguments, .. } => {
            assert_eq!(method, "AuraApi_slot_duration");
            assert_eq!(chain, "Kusama");
            assert_eq!(hash, "0xabc");
            assert!(arguments.is_empty());
        },
        _ => panic!("wrong kind"),
    }
    assert_eq!(
        e.message(),
        "Runtime call AuraApi_slot_duration with arguments 0x of chain Kusama at 0xabc has failed: RPC error: stopped"
    );
}

#[test]
fn system_health_not_synced_scenario() {
    let cause = not_synced();
    assert!(cause.is_connection_error());
    let e = SubstrateError::failed_to_get_system_health("Polkadot", cause);
    assert!(e.is_connection_error());
    assert!(e.nested().unwrap().is_connection_error());
    assert_eq!(
        e.message(),
        "Failed to get system health of Polkadot node: Substrate client is not synced 3 peers (syncing)."
    );
}

#[test]
fn navigation_ends_at_leaf() {
    let e = SubstrateError::failed_to_get_system_health(
        "Polkadot",
        SubstrateError::failed_to_read_best_header("Polkadot", io("eof")),
    );
    let mut steps = 0;
    let mut cur = &e;
    while let Some(n) = cur.nested() {
        cur = n;
        steps += 1;
    }
    assert_eq!(steps, 2);
    assert!(matches!(cur, SubstrateError::Io(_)));
    assert!(matches!(e.root_cause(), SubstrateError::Io(m) if m == "eof"));
    let leaf = SubstrateError::BridgePalletIsHalted;
    assert!(matches!(leaf.root_cause(), SubstrateError::BridgePalletIsHalted));
}

#[test]
fn constructors_keep_context() {
    match SubstrateError::failed_to_read_header_hash_by_number("Rococo", 1234567, custom_cause()) {
        SubstrateError::FailedToReadHeaderHashByNumber { chain, number, .. } => {
            assert_eq!(chain, "Rococo");
            assert_eq!(number, "1234567");
        },
        _ => panic!("wrong kind"),
    }
    match SubstrateError::failed_to_read_header_hash_by_number("Rococo", u64::MAX, custom_cause()) {
        SubstrateError::FailedToReadHeaderHashByNumber { number, .. } => {
            assert_eq!(number, "18446744073709551615");
        },
        _ => panic!("wrong kind"),
    }
    match SubstrateError::failed_to_read_header_hash_by_number("Rococo", 0, custom_cause()) {
        SubstrateError::FailedToReadHeaderHashByNumber { number, .. } => assert_eq!(number, "0"),
        _ => panic!("wrong kind"),
    }
    assert!(matches!(
        SubstrateError::failed_to_read_block_by_hash("Rococo", "0x02", custom_cause()),
        SubstrateError::FailedToReadBlockByHash { .. }
    ));
    assert!(matches!(
        SubstrateError::failed_to_read_header_by_hash("Rococo", "0x02", custom_cause()),
        SubstrateError::FailedToReadHeaderByHash { .. }
    ));
    match SubstrateError::failed_to_prove_storage("Rococo", "0x9", vec![vec![1, 2], vec![]], custom_cause()) {
        SubstrateError::FailedToProveStorage { storage_keys, hash, .. } => {
            assert_eq!(storage_keys, vec![vec![1, 2], vec![]]);
            assert_eq!(hash, "0x9");
        },
        _ => panic!("wrong kind"),
    }
}

#[test]
fn messages_of_leaves() {
    let got: Vec<String> = leaves().iter().map(|e| e.message()).collect();
    let want = vec![
        "IO error: broken pipe",
        "RPC error: down",
        "RPC error: restart",
        "RPC error: other",
        "Response parse failed: bad",
        "Internal communication channel error: closed.",
        "Parachain 1000 head 42 is missing from the relay chain storage.",
        "Failed to find finality proof for header 7.",
        "Substrate client is not synced 3 peers (syncing).",
        "Bridge pallet is halted.",
        "Bridge pallet is not initialized.",
        "Substrate transaction is invalid: Invalid(Payment)",
        "custom",
    ];
    assert_eq!(got, want);
    let idle = SubstrateError::ClientNotSynced(Health { peers: 0, is_syncing: false, should_have_peers: false });
    assert_eq!(idle.message(), "Substrate client is not synced 0 peers (idle).");
}

#[test]
fn messages_of_wraps() {
    let got: Vec<String> = wraps("Kusama", custom_cause).iter().map(|e| e.message()).collect();
    let want = vec![
        "Failed to read header hash by number 10 of Kusama: cause",
        "Failed to read header 0x01 of Kusama: cause",
        "Failed to read block 0x02 of Kusama: cause",
        "Failed to read best finalized header hash of Kusama: cause",
        "Failed to read best header of Kusama: cause",
        "Failed to read runtime version of Kusama: cause",
        "Failed to read storage value 0x01 at Kusama block 0xabc: cause",
        "Failed to get pending extrinsics of Kusama: cause",
        "Failed to submit Kusama transaction: cause",
        "Runtime call M with arguments 0x02 of chain Kusama at 0xabc has failed: cause",
        "Failed to prove storage keys [0x03] of Kusama at 0xabc: cause",
        "Failed to get system health of Kusama node: cause",
        "Failed to subscribe to Kusama justifications: cause",
    ];
    assert_eq!(got, want);
    let e = SubstrateError::failed_to_prove_storage(
        "Kusama",
        "0xabc",
        vec![vec![0xde, 0xad], vec![], vec![0x0f]],
        SubstrateError::BridgePalletIsHalted,
    );
    assert_eq!(
        e.message(),
        "Failed to prove storage keys [0xdead, 0x, 0x0f] of Kusama at 0xabc: Bridge pallet is halted."
    );
    let none = SubstrateError::failed_to_prove_storage("Kusama", "0x1", vec![], custom_cause());
    assert_eq!(none.message(), "Failed to prove storage keys [] of Kusama at 0x1: cause");
}

#[test]
fn boxed_keeps_value() {
    let b = SubstrateError::FinalityProofNotFound(9).boxed();
    assert!(matches!(*b, SubstrateError::FinalityProofNotFound(9)));
}
