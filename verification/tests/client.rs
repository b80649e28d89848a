use eth_rpc_client::call::SequentialStep;
use eth_rpc_client::error::{JsonRpcError, RpcError};
use eth_rpc_client::lifecycle::{EthereumNetwork, State};
use eth_rpc_client::rpc::{EthRpcClient, GetBlockByNumberParams, RpcConfig};
use eth_rpc_client::service::{EthMainnetService, EthSepoliaService, RpcService};

#[derive(Debug, PartialEq)]
struct Transport;

type Client = EthRpcClient<Transport>;

fn client(chain: EthereumNetwork) -> Client {
    EthRpcClient::new(chain, None, RpcConfig::default())
}

fn configured(size: u64) -> Client {
    EthRpcClient::new(
        EthereumNetwork::mainnet(),
        None,
        RpcConfig { response_size_estimate: Some(size) },
    )
}

fn mainnet_services() -> Vec<RpcService> {
    vec![
        RpcService::EthMainnet(EthMainnetService::Alchemy),
        RpcService::EthMainnet(EthMainnetService::Ankr),
        RpcService::EthMainnet(EthMainnetService::PublicNode),
        RpcService::EthMainnet(EthMainnetService::Cloudflare),
    ]
}

fn sepolia_services() -> Vec<RpcService> {
    vec![
        RpcService::EthSepolia(EthSepoliaService::Alchemy),
        RpcService::EthSepolia(EthSepoliaService::Ankr),
        RpcService::EthSepolia(EthSepoliaService::BlockPi),
        RpcService::EthSepolia(EthSepoliaService::PublicNode),
    ]
}

#[test]
fn default_providers_are_those_of_the_network() {
    assert_eq!(client(EthereumNetwork::mainnet()).providers(), mainnet_services());
    assert_eq!(client(EthereumNetwork::sepolia()).providers(), sepolia_services());
    assert_eq!(client(EthereumNetwork(5)).providers(), vec![]);
}

#[test]
fn given_providers_are_asked_on_any_network() {
    let given = vec![
        RpcService::EthSepolia(EthSepoliaService::BlockPi),
        RpcService::EthMainnet(EthMainnetService::Ankr),
        RpcService::EthSepolia(EthSepoliaService::BlockPi),
    ];
    for chain in [EthereumNetwork::mainnet(), EthereumNetwork::sepolia(), EthereumNetwork(5)] {
        let client: Client = EthRpcClient::new(chain, Some(given.clone()), RpcConfig::default());
        assert_eq!(client.providers(), given);
        assert_eq!(client.clone(), client);
    }
    let client: Client =
        EthRpcClient::new(EthereumNetwork::mainnet(), Some(vec![]), RpcConfig::default());
    assert_eq!(client.providers(), vec![]);
}

#[test]
fn client_from_state_has_defaults() {
    let state = State { ethereum_network: EthereumNetwork::sepolia() };
    let from_state: Client = EthRpcClient::from_state(&state);
    assert_eq!(from_state, client(EthereumNetwork::sepolia()));
    assert_eq!(from_state.response_size_estimate(12), 12);
}

#[test]
fn configured_size_wins() {
    assert_eq!(RpcConfig::default().response_size_estimate, None);
    assert_eq!(configured(9).response_size_estimate(4096), 9);
    assert_eq!(configured(0).response_size_estimate(4096), 0);
    assert_eq!(client(EthereumNetwork(5)).response_size_estimate(4096), 4096);

    let client = configured(9);
    assert_eq!(client.eth_get_logs(1).0.request.response_size_estimate, 9);
    assert_eq!(client.eth_get_block_by_number(1).0.request.response_size_estimate, 9);
    assert_eq!(client.eth_get_transaction_receipt(1).0.request.response_size_estimate, 9);
    assert_eq!(client.eth_fee_history(1).0.request.response_size_estimate, 9);
    assert_eq!(client.eth_get_transaction_count(1).request.response_size_estimate, 9);
    let raw = String::from("0x01");
    assert_eq!(
        client.eth_send_raw_transaction(raw.clone()).request().response_size_estimate,
        9
    );
    assert_eq!(
        client.multi_eth_send_raw_transaction(raw).0.request.response_size_estimate,
        9
    );
}

#[test]
fn logs_are_asked_of_all_providers() {
    let call = client(EthereumNetwork::mainnet()).eth_get_logs("filter").0;
    assert_eq!(call.providers, mainnet_services());
    assert_eq!(call.request.method, "eth_getLogs");
    assert_eq!(call.request.params, vec!["filter"]);
    assert_eq!(call.request.response_size_estimate, 1024 + 2048);
}

#[test]
fn blocks_are_smaller_on_sepolia() {
    for (chain, size) in [
        (EthereumNetwork::mainnet(), 24 * 1024 + 2048),
        (EthereumNetwork::sepolia(), 12 * 1024 + 2048),
        (EthereumNetwork(5), 24 * 1024 + 2048),
    ] {
        let client = client(chain);
        let call = client.eth_get_block_by_number("latest").0;
        assert_eq!(call.providers, client.providers());
        assert_eq!(call.request.method, "eth_getBlockByNumber");
        assert_eq!(
            call.request.params,
            GetBlockByNumberParams { block: "latest", include_full_transactions: false }
        );
        assert_eq!(call.request.response_size_estimate, size);
    }
}

#[test]
fn receipts_fees_and_counts_are_asked_of_all_providers() {
    let client = client(EthereumNetwork::sepolia());

    let call = client.eth_get_transaction_receipt([1u8; 32]).0;
    assert_eq!(call.providers, sepolia_services());
    assert_eq!(call.request.method, "eth_getTransactionReceipt");
    assert_eq!(call.request.params, vec![[1u8; 32]]);
    assert_eq!(call.request.response_size_estimate, 2748);

    let call = client.eth_fee_history((4, "latest")).0;
    assert_eq!(call.providers, sepolia_services());
    assert_eq!(call.request.method, "eth_feeHistory");
    assert_eq!(call.request.params, (4, "latest"));
    assert_eq!(call.request.response_size_estimate, 2560);

    let call = client.eth_get_transaction_count(("0xabc", "latest"));
    assert_eq!(call.providers, sepolia_services());
    assert_eq!(call.request.method, "eth_getTransactionCount");
    assert_eq!(call.request.params, ("0xabc", "latest"));
    assert_eq!(call.request.response_size_estimate, 2098);
}

#[test]
fn transactions_are_submitted_alike_one_by_one_and_at_once() {
    let client = client(EthereumNetwork::mainnet());
    let one_by_one = client.eth_send_raw_transaction("0x02f8".to_string());
    let at_once = client.multi_eth_send_raw_transaction("0x02f8".to_string()).0;
    assert_eq!(one_by_one.request(), &at_once.request);
    assert_eq!(one_by_one.provider(), mainnet_services()[0]);
    assert_eq!(at_once.providers, mainnet_services());
    assert_eq!(at_once.request.method, "eth_sendRawTransaction");
    assert_eq!(at_once.request.params, vec!["0x02f8".to_string()]);
    assert_eq!(at_once.request.response_size_estimate, 2304);
}

#[test]
fn any_method_can_be_called() {
    let client = client(EthereumNetwork::mainnet());
    let call = client.sequential_call_until_ok("eth_chainId", (), 10);
    assert_eq!(call.request().method, "eth_chainId");
    assert_eq!(call.request().response_size_estimate, 10);
    let call = client.parallel_call("eth_chainId", 3, 11);
    assert_eq!(call.request.method, "eth_chainId");
    assert_eq!(call.request.params, 3);
    assert_eq!(call.request.response_size_estimate, 11);
    assert_eq!(call.providers, mainnet_services());
}

#[test]
fn json_rpc_error_of_the_first_provider_is_the_outcome() {
    let client: Client = EthRpcClient::new(
        EthereumNetwork::mainnet(),
        Some(vec![
            RpcService::EthMainnet(EthMainnetService::Alchemy),
            RpcService::EthMainnet(EthMainnetService::Ankr),
        ]),
        RpcConfig::default(),
    );
    let call = client.sequential_call_until_ok("eth_getLogs", (), 1024);
    assert_eq!(call.provider(), RpcService::EthMainnet(EthMainnetService::Alchemy));
    let error: RpcError<u16> =
        RpcError::JsonRpcError(JsonRpcError { code: -32000, message: "x".to_string() });
    let reply: Result<Vec<u8>, RpcError<u16>> = Err(error.clone());
    match call.on_reply(reply) {
        SequentialStep::Done(outcome) => assert_eq!(outcome, Err(error)),
        SequentialStep::Ask(_) => panic!("nobody else is to be asked"),
    }
}
