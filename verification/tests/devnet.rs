use chainjobs::devnet::DevnetError;
use chainjobs::devnet::DevnetInfo;
use chainjobs::devnet::DevnetState;

fn sample_info() -> DevnetInfo {
    DevnetInfo {
        rpc_url: "http://127.0.0.1:8545".to_string(),
        chain_id: 31337,
        client_version: "Anvil".to_string(),
        addresses: vec!["0xabc".to_string(), "0xdef".to_string()],
        private_keys: vec!["0x111".to_string(), "0x222".to_string()],
    }
}

#[test]
fn start_flow_reaches_running() {
    let mut devnet = DevnetState::new();
    assert!(!devnet.get_devnet_status());
    assert_eq!(devnet.start_devnet_begin(), Ok(()));
    devnet.start_devnet_complete(sample_info(), true);
    assert!(devnet.get_devnet_status());
    let info = devnet.get_devnet_info().unwrap();
    assert_eq!(info.rpc_url, "http://127.0.0.1:8545");
    assert_eq!(info.chain_id, 31337);
    assert_eq!(info.client_version, "Anvil");
}

#[test]
fn second_start_rejected_and_instance_untouched() {
    let mut devnet = DevnetState::new();
    devnet.start_devnet_begin().unwrap();
    devnet.start_devnet_complete(sample_info(), true);
    let second = devnet.start_devnet_begin();
    assert_eq!(second, Err(DevnetError::AlreadyRunning));
    // The original instance is untouched.
    assert!(devnet.get_devnet_status());
    let info = devnet.get_devnet_info().unwrap();
    assert_eq!(info.rpc_url, "http://127.0.0.1:8545");
    assert_eq!(info.addresses, vec!["0xabc".to_string(), "0xdef".to_string()]);
}

#[test]
fn start_rejected_while_spawn_is_underway() {
    let mut devnet = DevnetState::new();
    devnet.start_devnet_begin().unwrap();
    assert_eq!(devnet.start_devnet_begin(), Err(DevnetError::AlreadyRunning));
}

#[test]
fn stop_on_absent_devnet_is_a_no_op() {
    let mut devnet = DevnetState::new();
    assert_eq!(devnet.stop_devnet(), Ok(()));
    assert!(!devnet.get_devnet_status());
    assert!(devnet.get_devnet_logs().is_empty());
    // Stopping again is just as harmless.
    assert_eq!(devnet.stop_devnet(), Ok(()));
}

#[test]
fn stop_ends_the_running_instance() {
    let mut devnet = DevnetState::new();
    devnet.start_devnet_begin().unwrap();
    devnet.start_devnet_complete(sample_info(), true);
    assert_eq!(devnet.stop_devnet(), Ok(()));
    assert!(!devnet.get_devnet_status());
    assert_eq!(devnet.get_devnet_info(), Err(DevnetError::NotRunning));
    // A new start is accepted after the stop.
    assert_eq!(devnet.start_devnet_begin(), Ok(()));
}

#[test]
fn failed_spawn_returns_to_absent() {
    let mut devnet = DevnetState::new();
    devnet.start_devnet_begin().unwrap();
    devnet.start_devnet_abort();
    assert!(!devnet.get_devnet_status());
    assert_eq!(devnet.start_devnet_begin(), Ok(()));
}

#[test]
fn captured_output_is_readable_while_running() {
    let mut devnet = DevnetState::new();
    devnet.start_devnet_begin().unwrap();
    devnet.start_devnet_complete(sample_info(), true);
    devnet.append_devnet_log("Listening on 127.0.0.1:8545".to_string());
    devnet.append_devnet_log("eth_blockNumber".to_string());
    assert_eq!(
        devnet.get_devnet_logs(),
        vec![
            "Listening on 127.0.0.1:8545".to_string(),
            "eth_blockNumber".to_string(),
        ]
    );
}

#[test]
fn missing_capture_leaves_a_placeholder_line() {
    let mut devnet = DevnetState::new();
    devnet.start_devnet_begin().unwrap();
    devnet.start_devnet_complete(sample_info(), false);
    assert!(devnet.get_devnet_status());
    assert_eq!(
        devnet.get_devnet_logs(),
        vec!["Devnet output capture is unavailable; logs will not be recorded.".to_string()]
    );
}

#[test]
fn wallets_pair_addresses_with_keys() {
    let mut devnet = DevnetState::new();
    devnet.start_devnet_begin().unwrap();
    devnet.start_devnet_complete(sample_info(), true);
    let wallets = devnet.get_devnet_wallets().unwrap();
    assert_eq!(wallets.len(), 2);
    assert_eq!(wallets[0].address, "0xabc");
    assert_eq!(wallets[0].private_key, "0x111");
    assert_eq!(wallets[1].address, "0xdef");
    assert_eq!(wallets[1].private_key, "0x222");
}

#[test]
fn wallets_require_a_running_instance() {
    let devnet = DevnetState::new();
    assert!(matches!(
        devnet.get_devnet_wallets(),
        Err(DevnetError::NotRunning)
    ));
}

#[test]
fn fork_request_hands_back_the_remote_url() {
    let mut devnet = DevnetState::new();
    let url = devnet
        .fork_network_begin("https://rpc.example".to_string())
        .unwrap();
    assert_eq!(url, "https://rpc.example");
    devnet.start_devnet_complete(sample_info(), true);
    assert_eq!(
        devnet.fork_network_begin("https://rpc.example".to_string()),
        Err(DevnetError::AlreadyRunning)
    );
}

#[test]
fn devnet_error_messages_are_stable() {
    assert_eq!(DevnetError::AlreadyRunning.message(), "Devnet is already running");
    assert_eq!(
        DevnetError::ExecutableNotFound.message(),
        "Anvil not found. Please ensure Foundry is installed and Anvil is in your PATH."
    );
    assert_eq!(
        DevnetError::SpawnFailed("permission denied".to_string()).message(),
        "Failed to spawn Anvil instance: permission denied"
    );
    assert_eq!(DevnetError::NotRunning.message(), "Devnet is not running");
}
