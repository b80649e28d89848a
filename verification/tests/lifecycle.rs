use eth_rpc_client::error::JsonRpcError;
use eth_rpc_client::lifecycle::{EthereumNetwork, State};
use eth_rpc_client::text::{push_decimal, push_signed_decimal};

#[test]
fn chain_ids_of_the_known_networks() {
    assert_eq!(EthereumNetwork::mainnet().chain_id(), 1);
    assert_eq!(EthereumNetwork::sepolia().chain_id(), 11155111);
    assert_eq!(EthereumNetwork(42).chain_id(), 42);
    assert_eq!(EthereumNetwork::default().chain_id(), 0);
}

#[test]
fn networks_are_shown_by_name() {
    assert_eq!(EthereumNetwork::mainnet().display(), "Ethereum Mainnet");
    assert_eq!(EthereumNetwork::sepolia().display(), "Ethereum Testnet Sepolia");
    assert_eq!(EthereumNetwork(0).display(), "Unknown Network (0)");
    assert_eq!(EthereumNetwork(137).display(), "Unknown Network (137)");
    assert_eq!(
        EthereumNetwork(u64::MAX).display(),
        "Unknown Network (18446744073709551615)"
    );
}

#[test]
fn different_networks_have_different_names() {
    let names: Vec<String> = [0u64, 1, 2, 10, 11, 100, 110, 11155110, 11155111, 11155112]
        .iter()
        .map(|id| EthereumNetwork(*id).display())
        .collect();
    for i in 0..names.len() {
        for j in 0..i {
            assert_ne!(names[i], names[j]);
        }
    }
}

#[test]
fn state_knows_its_network() {
    let state = State { ethereum_network: EthereumNetwork::sepolia() };
    assert_eq!(state.ethereum_network(), EthereumNetwork(11155111));
}

#[test]
fn decimals_agree_with_std() {
    for n in [0u64, 7, 9, 10, 99, 100, 1234567890, u64::MAX] {
        let mut out = String::from("n = ");
        push_decimal(&mut out, n);
        assert_eq!(out, format!("n = {}", n));
    }
    for n in [0i64, 5, -1, -10, 32000, -32000, i64::MAX, i64::MIN] {
        let mut out = String::new();
        push_signed_decimal(&mut out, n);
        assert_eq!(out, format!("{}", n));
    }
}

#[test]
fn json_rpc_errors_are_shown_with_their_code() {
    let error = JsonRpcError { code: -32602, message: "invalid params".to_string() };
    assert_eq!(error.display(), "code -32602: invalid params");
    let error = JsonRpcError { code: 0, message: String::new() };
    assert_eq!(error.display(), "code 0: ");
}
