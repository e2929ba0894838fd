use node_boot::environment::build_environment;
use node_boot::init::{
    daemon_binary_name, init_args, marker_rel_path, plan_initialization, HomeState, InitAction,
};
use node_boot::rpc::TrustParams;
use node_boot::supervisor::start_args;

#[test]
fn environment_holds_exactly_the_five_settings() {
    let trust = TrustParams { height: 900, hash: "ABCD1234".to_string() };
    let env = build_environment(&trust);
    assert_eq!(env.len(), 5);
    assert_eq!(env[0].0, "QUICKSILVERD_STATESYNC_ENABLE");
    assert_eq!(env[0].1, "true");
    assert_eq!(env[1].0, "QUICKSILVERD_P2P_MAX_NUM_OUTBOUND_PEERS");
    assert_eq!(env[1].1, "200");
    assert_eq!(env[2].0, "QUICKSILVERD_STATESYNC_RPC_SERVERS");
    assert_eq!(
        env[2].1,
        "https://quicksilver-rpc.polkachu.com:443,https://quicksilver-rpc.polkachu.com:443"
    );
    assert_eq!(env[3].0, "QUICKSILVERD_STATESYNC_TRUST_HEIGHT");
    assert_eq!(env[3].1, "900");
    assert_eq!(env[4].0, "QUICKSILVERD_STATESYNC_TRUST_HASH");
    assert_eq!(env[4].1, "ABCD1234");
}

#[test]
fn environment_build_is_pure() {
    let trust = TrustParams { height: 12345, hash: "FFAA".to_string() };
    let once = build_environment(&trust);
    let twice = build_environment(&trust);
    assert_eq!(once, twice);
}

#[test]
fn initialization_is_idempotent() {
    let fresh = HomeState { marker_present: false };
    let (after_first, first_action) = plan_initialization(fresh);
    assert_eq!(first_action, InitAction::RunInitAndInstall);
    assert!(after_first.marker_present);
    let (after_second, second_action) = plan_initialization(after_first);
    assert_eq!(second_action, InitAction::AlreadyInitialized);
    assert_eq!(after_second, after_first);
}

#[test]
fn initialized_home_is_left_alone() {
    let home = HomeState { marker_present: true };
    let (after, action) = plan_initialization(home);
    assert_eq!(action, InitAction::AlreadyInitialized);
    assert_eq!(after, home);
}

#[test]
fn daemon_invocations_are_fixed() {
    assert_eq!(daemon_binary_name(), "quicksilverd");
    assert_eq!(init_args(), vec!["init".to_string(), "test".to_string()]);
    assert_eq!(
        start_args(),
        vec![
            "start".to_string(),
            "--x-crisis-skip-assert-invariants".to_string(),
            "--iavl-disable-fastnode=false".to_string(),
        ]
    );
    assert_eq!(marker_rel_path(), ".quicksilverd/config/genesis.json");
}
