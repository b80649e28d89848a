//! The client: what it asks of which providers.

use crate::call::{
    EqualityCall, OldestBlockMajorityCall, ParallelCall, RpcRequest, SequentialCall,
};
use crate::lifecycle::{EthereumNetwork, State, MAINNET_CHAIN_ID, SEPOLIA_CHAIN_ID};
use crate::service::{
    default_services, mainnet_providers, sepolia_providers, unknown_providers, EthMainnetService,
    EthSepoliaService, RpcService,
};
use std::marker::PhantomData;
use vstd::prelude::*;

verus! {

/// An approximation of the expected header size.
/// The HTTP standard doesn't define any limit, and many implementations limit
/// the headers size to 8 KiB. A lower limit is chosen because the headers
/// observed on most providers fit in it, and if there is a spike, then the
/// payload size adjustment should take care of that.
pub const HEADER_SIZE_LIMIT: u64 = 2 * 1024;

/// How a client makes its calls.
#[derive(Clone, Debug, PartialEq, Eq)]
pub struct RpcConfig {
    /// The expected size of a response, in place of the estimate that goes
    /// with a method.
    pub response_size_estimate: Option<u64>,
}

impl Default for RpcConfig {
    fn default() -> (config: Self)
        ensures
            config == (RpcConfig { response_size_estimate: None }),
    {
        RpcConfig { response_size_estimate: None }
    }
}

/// The parameters of `eth_getBlockByNumber`.
#[derive(Clone, Debug, PartialEq, Eq)]
pub struct GetBlockByNumberParams<B> {
    /// The block that is asked for.
    pub block: B,
    /// Whether its transactions are wanted in full, or only their hashes.
    pub include_full_transactions: bool,
}

/// A JSON-RPC client for one network. `T` is the transport that its calls go
/// over.
#[derive(Debug, PartialEq, Eq)]
pub struct EthRpcClient<T> {
    chain: EthereumNetwork,
    providers: Option<Vec<RpcService>>,
    config: RpcConfig,
    phantom: PhantomData<T>,
}

/// A client: its network, the providers that it was given, and its settings.
pub struct ClientView {
    pub chain: EthereumNetwork,
    pub explicit_providers: Option<Seq<RpcService>>,
    pub config: RpcConfig,
}

impl<T> View for EthRpcClient<T> {
    type V = ClientView;

    closed spec fn view(&self) -> ClientView {
        ClientView {
            chain: self.chain,
            explicit_providers: match self.providers {
                Some(providers) => Some(providers@),
                None => None,
            },
            config: self.config,
        }
    }
}

impl ClientView {
    /// The providers that the client asks: those that it was given, and else
    /// the default ones of its network.
    pub open spec fn providers(self) -> Seq<RpcService> {
        match self.explicit_providers {
            Some(providers) => providers,
            None => default_services(self.chain),
        }
    }

    /// The size of a response that the client expects where the method's own
    /// estimate is `estimate`.
    pub open spec fn response_size(self, estimate: int) -> int {
        match self.config.response_size_estimate {
            Some(size) => size as int,
            None => estimate,
        }
    }

    /// The size of a response that the client expects to a method whose
    /// payload is estimated at `payload` bytes.
    pub open spec fn size_with_header(self, payload: int) -> int {
        self.response_size(payload + HEADER_SIZE_LIMIT)
    }

    /// The expected payload of a block of the client's network, in bytes.
    pub open spec fn block_size(self) -> int {
        if self.chain.0 == SEPOLIA_CHAIN_ID {
            12 * 1024int
        } else {
            24 * 1024int
        }
    }

    /// `request` submits the signed transaction `raw`.
    pub open spec fn submits(self, request: RpcRequest<Vec<String>>, raw: String) -> bool {
        &&& request.calls("eth_sendRawTransaction"@, self.size_with_header(256))
        &&& request.params@ =~= seq![raw]
    }
}

impl<T> Clone for EthRpcClient<T> {
    fn clone(&self) -> (copy: Self)
        ensures
            copy@ == self@,
    {
        let providers = match &self.providers {
            Some(providers) => {
                let copies = providers.clone();
                assert(copies@ =~= providers@);
                Some(copies)
            },
            None => None,
        };
        let config = RpcConfig { response_size_estimate: self.config.response_size_estimate };
        EthRpcClient { chain: self.chain, providers, config, phantom: PhantomData }
    }
}

impl<T> EthRpcClient<T> {
    /// A client for `chain` that asks `providers`, or the default providers of
    /// the network where there are none given.
    pub fn new(
        chain: EthereumNetwork,
        providers: Option<Vec<RpcService>>,
        config: RpcConfig,
    ) -> (client: Self)
        ensures
            client@.chain == chain,
            client@.explicit_providers == (match providers {
                Some(providers) => Some(providers@),
                None => None,
            }),
            client@.config == config,
            client@.config.response_size_estimate == config.response_size_estimate,
    {
        EthRpcClient { chain, providers, config, phantom: PhantomData }
    }

    /// A client for the network of `state`, with its default providers and
    /// settings.
    pub fn from_state(state: &State) -> (client: Self)
        ensures
            client@ == (ClientView {
                chain: state.ethereum_network,
                explicit_providers: None,
                config: RpcConfig { response_size_estimate: None },
            }),
    {
        Self::new(state.ethereum_network(), None, RpcConfig::default())
    }

    /// The providers that the client asks, in order.
    pub fn providers(&self) -> (providers: Vec<RpcService>)
        ensures
            providers@ == self@.providers(),
            self@.explicit_providers matches Some(given) ==> providers@ == given,
            self@.explicit_providers is None && self@.chain.0 == 1 ==> providers@ == seq![
                RpcService::EthMainnet(EthMainnetService::Alchemy),
                RpcService::EthMainnet(EthMainnetService::Ankr),
                RpcService::EthMainnet(EthMainnetService::PublicNode),
                RpcService::EthMainnet(EthMainnetService::Cloudflare),
            ],
            self@.explicit_providers is None && self@.chain.0 == 11155111 ==> providers@ == seq![
                RpcService::EthSepolia(EthSepoliaService::Alchemy),
                RpcService::EthSepolia(EthSepoliaService::Ankr),
                RpcService::EthSepolia(EthSepoliaService::BlockPi),
                RpcService::EthSepolia(EthSepoliaService::PublicNode),
            ],
            self@.explicit_providers is None && self@.chain.0 != 1 && self@.chain.0 != 11155111
                ==> providers@.len() == 0,
    {
        match &self.providers {
            Some(providers) => {
                let copies = providers.clone();
                assert(copies@ =~= providers@);
                copies
            },
            None => if self.chain == EthereumNetwork::mainnet() {
                mainnet_providers()
            } else if self.chain == EthereumNetwork::sepolia() {
                sepolia_providers()
            } else {
                unknown_providers()
            },
        }
    }

    /// The size of a response to expect where the method's own estimate is
    /// `estimate`.
    pub fn response_size_estimate(&self, estimate: u64) -> (size: u64)
        ensures
            size == self@.response_size(estimate as int),
            self@.config.response_size_estimate matches Some(configured) ==> size == configured,
            self@.config.response_size_estimate is None ==> size == estimate,
    {
        self.config.response_size_estimate.unwrap_or(estimate)
    }

    /// Query all providers in sequence until one returns an ok result
    /// (which could still be a JSON-RPC error).
    /// If none of the providers return an ok result, return the last error.
    /// This method is useful in case a provider is temporarily down but should only be for
    /// querying data that is **not** critical since the returned value comes from a single provider.
    pub fn sequential_call_until_ok<I>(
        &self,
        method: &str,
        params: I,
        response_size_estimate: u64,
    ) -> (call: SequentialCall<I>)
        requires
            self@.providers().len() > 0,
        ensures
            call@.pending == self@.providers(),
            call@.request.calls(method@, response_size_estimate as int),
            call@.request.method@ == method@,
            call@.request.response_size_estimate == response_size_estimate,
            call@.request.params == params,
    {
        let request = RpcRequest { method: method.to_owned(), params, response_size_estimate };
        SequentialCall::new(request, self.providers())
    }

    /// Query all providers in parallel and return all results.
    /// It's up to the caller to decide how to handle the results, which could be inconsistent among one another,
    /// (e.g., if different providers gave different responses).
    /// This method is useful for querying data that is critical for the system to ensure that there is no single point of failure,
    /// e.g., ethereum logs upon which ckETH will be minted.
    pub fn parallel_call<I>(&self, method: &str, params: I, response_size_estimate: u64) -> (call:
        ParallelCall<I>)
        ensures
            call.providers@ == self@.providers(),
            call.request.calls(method@, response_size_estimate as int),
            call.request.method@ == method@,
            call.request.response_size_estimate == response_size_estimate,
            call.request.params == params,
    {
        let request = RpcRequest { method: method.to_owned(), params, response_size_estimate };
        ParallelCall { request, providers: self.providers() }
    }

    /// Asks for the logs that match `params`.
    pub fn eth_get_logs<P>(&self, params: P) -> (call: EqualityCall<Vec<P>>)
        ensures
            call.0.providers@ == self@.providers(),
            call.0.request.calls("eth_getLogs"@, self@.size_with_header(1024)),
            call.0.request.method@ == "eth_getLogs"@,
            self@.config.response_size_estimate matches Some(size) ==> call.0.request.response_size_estimate
                == size,
            self@.config.response_size_estimate is None ==> call.0.request.response_size_estimate
                == 1024 + 2048,
            call.0.request.params@ == seq![params],
    {
        EqualityCall(
            self.parallel_call(
                "eth_getLogs",
                vec![params],
                self.response_size_estimate(1024 + HEADER_SIZE_LIMIT),
            ),
        )
    }

    /// Asks for a block, without its transactions in full.
    pub fn eth_get_block_by_number<B>(&self, block: B) -> (call: EqualityCall<
        GetBlockByNumberParams<B>,
    >)
        ensures
            call.0.providers@ == self@.providers(),
            call.0.request.calls(
                "eth_getBlockByNumber"@,
                self@.size_with_header(self@.block_size()),
            ),
            call.0.request.method@ == "eth_getBlockByNumber"@,
            self@.config.response_size_estimate matches Some(size)
                ==> call.0.request.response_size_estimate == size,
            self@.config.response_size_estimate is None && self@.chain.0 == 11155111
                ==> call.0.request.response_size_estimate == 12 * 1024 + 2048,
            self@.config.response_size_estimate is None && self@.chain.0 != 11155111
                ==> call.0.request.response_size_estimate == 24 * 1024 + 2048,
            call.0.request.params.block == block,
            !call.0.request.params.include_full_transactions,
            call.0.request.params == (GetBlockByNumberParams {
                block,
                include_full_transactions: false,
            }),
    {
        let expected_block_size: u64 = if self.chain == EthereumNetwork::sepolia() {
            12 * 1024
        } else {
            24 * 1024
        };
        EqualityCall(
            self.parallel_call(
                "eth_getBlockByNumber",
                GetBlockByNumberParams { block, include_full_transactions: false },
                self.response_size_estimate(expected_block_size + HEADER_SIZE_LIMIT),
            ),
        )
    }

    /// Asks for the receipt of a transaction.
    pub fn eth_get_transaction_receipt<P>(&self, tx_hash: P) -> (call: EqualityCall<Vec<P>>)
        ensures
            call.0.providers@ == self@.providers(),
            call.0.request.calls("eth_getTransactionReceipt"@, self@.size_with_header(700)),
            call.0.request.method@ == "eth_getTransactionReceipt"@,
            self@.config.response_size_estimate matches Some(size) ==> call.0.request.response_size_estimate
                == size,
            self@.config.response_size_estimate is None ==> call.0.request.response_size_estimate
                == 700 + 2048,
            call.0.request.params@ == seq![tx_hash],
    {
        EqualityCall(
            self.parallel_call(
                "eth_getTransactionReceipt",
                vec![tx_hash],
                self.response_size_estimate(700 + HEADER_SIZE_LIMIT),
            ),
        )
    }

    /// Asks for the fee history.
    pub fn eth_fee_history<P>(&self, params: P) -> (call: OldestBlockMajorityCall<P>)
        ensures
            call.0.providers@ == self@.providers(),
            call.0.request.calls("eth_feeHistory"@, self@.size_with_header(512)),
            call.0.request.method@ == "eth_feeHistory"@,
            self@.config.response_size_estimate matches Some(size) ==> call.0.request.response_size_estimate
                == size,
            self@.config.response_size_estimate is None ==> call.0.request.response_size_estimate
                == 512 + 2048,
            call.0.request.params == params,
    {
        // A typical response is slightly above 300 bytes.
        OldestBlockMajorityCall(
            self.parallel_call(
                "eth_feeHistory",
                params,
                self.response_size_estimate(512 + HEADER_SIZE_LIMIT),
            ),
        )
    }

    /// Submits a signed transaction to one provider after another, until one
    /// answers.
    pub fn eth_send_raw_transaction(&self, raw_signed_transaction_hex: String) -> (call:
        SequentialCall<Vec<String>>)
        requires
            self@.providers().len() > 0,
        ensures
            call@.pending == self@.providers(),
            self@.submits(call@.request, raw_signed_transaction_hex),
            call@.request.method@ == "eth_sendRawTransaction"@,
            call@.request.params@ == seq![raw_signed_transaction_hex],
            self@.config.response_size_estimate matches Some(size) ==> call@.request.response_size_estimate
                == size,
            self@.config.response_size_estimate is None ==> call@.request.response_size_estimate
                == 256 + 2048,
    {
        // A successful reply is under 256 bytes, but we expect most calls to end with an error
        // since we submit the same transaction from multiple nodes.
        self.sequential_call_until_ok(
            "eth_sendRawTransaction",
            vec![raw_signed_transaction_hex],
            self.response_size_estimate(256 + HEADER_SIZE_LIMIT),
        )
    }

    /// Submits a signed transaction to all providers.
    pub fn multi_eth_send_raw_transaction(&self, raw_signed_transaction_hex: String) -> (call:
        EqualityCall<Vec<String>>)
        ensures
            call.0.providers@ == self@.providers(),
            self@.submits(call.0.request, raw_signed_transaction_hex),
            call.0.request.method@ == "eth_sendRawTransaction"@,
            call.0.request.params@ == seq![raw_signed_transaction_hex],
            self@.config.response_size_estimate matches Some(size) ==> call.0.request.response_size_estimate
                == size,
            self@.config.response_size_estimate is None ==> call.0.request.response_size_estimate
                == 256 + 2048,
    {
        EqualityCall(
            self.parallel_call(
                "eth_sendRawTransaction",
                vec![raw_signed_transaction_hex],
                self.response_size_estimate(256 + HEADER_SIZE_LIMIT),
            ),
        )
    }

    /// Asks for the number of transactions of an account. All results are
    /// kept as they are.
    pub fn eth_get_transaction_count<P>(&self, params: P) -> (call: ParallelCall<P>)
        ensures
            call.providers@ == self@.providers(),
            call.request.calls("eth_getTransactionCount"@, self@.size_with_header(50)),
            call.request.method@ == "eth_getTransactionCount"@,
            self@.config.response_size_estimate matches Some(size) ==> call.request.response_size_estimate
                == size,
            self@.config.response_size_estimate is None ==> call.request.response_size_estimate
                == 50 + 2048,
            call.request.params == params,
    {
        self.parallel_call(
            "eth_getTransactionCount",
            params,
            self.response_size_estimate(50 + HEADER_SIZE_LIMIT),
        )
    }
}

/// Providers that a client was given are asked as they are, whatever its
/// network. A client without such has somebody to ask exactly on the mainnet
/// and on Sepolia, and then asks nobody twice and only providers of its
/// network.
pub proof fn law_providers(client: ClientView)
    ensures
        client.explicit_providers matches Some(providers) ==> client.providers() == providers,
        client.explicit_providers is None ==> {
            &&& client.providers().len() > 0 <==> client.chain.0 == MAINNET_CHAIN_ID
                || client.chain.0 == SEPOLIA_CHAIN_ID
            &&& client.providers().no_duplicates()
            &&& forall|i: int|
                0 <= i < client.providers().len() ==> (
                #[trigger] client.providers()[i]).network() == client.chain
        },
{
    crate::service::law_default_services(client.chain);
}

/// A configured size is expected of every response, whatever the method's own
/// estimate. Without one, the estimate stands, and leaves room for the header.
pub proof fn law_response_size(client: ClientView, payload: int)
    ensures
        client.config.response_size_estimate matches Some(size) ==> client.size_with_header(payload)
            == size,
        client.config.response_size_estimate is None ==> client.size_with_header(payload)
            - payload == HEADER_SIZE_LIMIT,
{
}

/// A transaction that is submitted to one provider after another and one that
/// is submitted to all of them make the same request.
pub proof fn law_same_submission(
    client: ClientView,
    raw: String,
    one_by_one: RpcRequest<Vec<String>>,
    at_once: RpcRequest<Vec<String>>,
)
    requires
        client.submits(one_by_one, raw),
        client.submits(at_once, raw),
    ensures
        one_by_one.method@ == at_once.method@,
        one_by_one.params@ == at_once.params@,
        one_by_one.response_size_estimate == at_once.response_size_estimate,
{
}

/// A client that names its providers asks just those. One that does not asks
/// the mainnet or the Sepolia providers in their order, and nobody on any other
/// network.
pub proof fn law_providers_by_name(client: ClientView)
    ensures
        client.explicit_providers matches Some(given) ==> client.providers() == given,
        client.explicit_providers is None && client.chain.0 == 1 ==> client.providers() == seq![
            RpcService::EthMainnet(EthMainnetService::Alchemy),
            RpcService::EthMainnet(EthMainnetService::Ankr),
            RpcService::EthMainnet(EthMainnetService::PublicNode),
            RpcService::EthMainnet(EthMainnetService::Cloudflare),
        ],
        client.explicit_providers is None && client.chain.0 == 11155111 ==> client.providers()
            == seq![
            RpcService::EthSepolia(EthSepoliaService::Alchemy),
            RpcService::EthSepolia(EthSepoliaService::Ankr),
            RpcService::EthSepolia(EthSepoliaService::BlockPi),
            RpcService::EthSepolia(EthSepoliaService::PublicNode),
        ],
        client.explicit_providers is None && client.chain.0 != 1 && client.chain.0 != 11155111
            ==> client.providers().len() == 0,
{
    crate::service::law_default_services_by_name(client.chain);
}

/// A request expects the size that the client was configured with. Without
/// such, it expects the payload of its method and 2 KiB of header.
pub proof fn law_request_size<I>(
    client: ClientView,
    request: RpcRequest<I>,
    method: Seq<char>,
    payload: int,
)
    requires
        request.calls(method, client.size_with_header(payload)),
    ensures
        request.method@ == method,
        client.config.response_size_estimate matches Some(size) ==> request.response_size_estimate
            == size,
        client.config.response_size_estimate is None ==> request.response_size_estimate == payload
            + 2048,
{
}

/// The size that a client expects does not depend on its network or its
/// providers, and grows with the estimate unless one is configured.
pub proof fn law_size_by_config(a: ClientView, b: ClientView, estimate: int, more: int)
    requires
        a.config == b.config,
    ensures
        a.response_size(estimate) == b.response_size(estimate),
        a.config.response_size_estimate is None ==> a.response_size(estimate) == estimate,
        a.config.response_size_estimate is None ==> a.response_size(estimate + more)
            - a.response_size(estimate) == more,
        a.config.response_size_estimate matches Some(size) ==> a.response_size(estimate) == size,
{
}

/// Without a configured size, a request for a block expects 12 KiB on Sepolia
/// and 24 KiB on every other network, and 2 KiB of header, whatever providers
/// the client was given. A configured size takes the place of all that.
pub proof fn law_block_request_size<I>(client: ClientView, request: RpcRequest<I>)
    requires
        request.calls("eth_getBlockByNumber"@, client.size_with_header(client.block_size())),
    ensures
        client.config.response_size_estimate matches Some(size) ==> request.response_size_estimate
            == size,
        client.config.response_size_estimate is None && client.chain.0 == 11155111
            ==> request.response_size_estimate == 12 * 1024 + 2048,
        client.config.response_size_estimate is None && client.chain.0 != 11155111
            ==> request.response_size_estimate == 24 * 1024 + 2048,
{
}

/// A submission carries the signed transaction, that one and nothing else,
/// whatever it is: it calls `eth_sendRawTransaction` with it as the only
/// parameter.
pub proof fn law_submission_carries_the_transaction(
    client: ClientView,
    request: RpcRequest<Vec<String>>,
    raw: String,
)
    requires
        client.submits(request, raw),
    ensures
        request.method@ == "eth_sendRawTransaction"@,
        request.params@.len() == 1,
        request.params@[0] == raw,
        client.config.response_size_estimate matches Some(size) ==> request.response_size_estimate
            == size,
        client.config.response_size_estimate is None ==> request.response_size_estimate == 256
            + 2048,
{
}

/// Submissions of different transactions are different requests.
pub proof fn law_submissions_differ(
    client: ClientView,
    first: RpcRequest<Vec<String>>,
    first_raw: String,
    second: RpcRequest<Vec<String>>,
    second_raw: String,
)
    requires
        client.submits(first, first_raw),
        client.submits(second, second_raw),
        first_raw@ != second_raw@,
    ensures
        first.params@ != second.params@,
{
    assert(first.params@[0] == first_raw);
    assert(second.params@[0] == second_raw);
}

} // verus!
