use eth_rpc_client::call::{ParallelCall, RpcRequest, SequentialCall, SequentialStep};
use eth_rpc_client::error::{
    HttpOutcallError, JsonRpcError, ProviderError, RpcError, ValidationError,
};
use eth_rpc_client::service::{EthMainnetService, EthSepoliaService, RpcService};

type Reply = Result<&'static str, RpcError<u16>>;

fn providers() -> Vec<RpcService> {
    vec![
        RpcService::EthMainnet(EthMainnetService::Cloudflare),
        RpcService::EthSepolia(EthSepoliaService::BlockPi),
        RpcService::EthMainnet(EthMainnetService::Ankr),
    ]
}

fn request() -> RpcRequest<Vec<u8>> {
    RpcRequest {
        method: "eth_test".to_string(),
        params: vec![1, 2],
        response_size_estimate: 77,
    }
}

/// Runs a sequential call against fixed replies: who was asked, and the outcome.
fn run(replies: Vec<Reply>) -> (Vec<RpcService>, Reply) {
    let mut asked = Vec::new();
    let mut call = SequentialCall::new(request(), providers());
    for reply in replies {
        assert_eq!(call.request(), &request());
        asked.push(call.provider());
        match call.on_reply(reply) {
            SequentialStep::Ask(next) => call = next,
            SequentialStep::Done(outcome) => return (asked, outcome),
        }
    }
    panic!("the call asks for more replies than there are providers");
}

fn json_rpc_error(code: i64) -> RpcError<u16> {
    RpcError::from(JsonRpcError { code, message: "failed".to_string() })
}

fn outcall_error(status: u16) -> RpcError<u16> {
    RpcError::from(HttpOutcallError(status))
}

#[test]
fn first_value_ends_a_sequential_call() {
    let (asked, outcome) = run(vec![Ok("a"), Ok("b"), Ok("c")]);
    assert_eq!(asked, providers()[..1].to_vec());
    assert_eq!(outcome, Ok("a"));
}

#[test]
fn missing_answers_pass_a_sequential_call_on() {
    let (asked, outcome) = run(vec![
        Err(outcall_error(500)),
        Err(RpcError::from(ProviderError::ProviderNotFound)),
        Ok("c"),
    ]);
    assert_eq!(asked, providers());
    assert_eq!(outcome, Ok("c"));

    let (asked, outcome) = run(vec![
        Err(RpcError::from(ValidationError::CredentialPathNotAllowed)),
        Ok("b"),
        Ok("c"),
    ]);
    assert_eq!(asked, providers()[..2].to_vec());
    assert_eq!(outcome, Ok("b"));
}

#[test]
fn json_rpc_error_ends_a_sequential_call() {
    let (asked, outcome) = run(vec![Err(json_rpc_error(-32000)), Ok("b"), Ok("c")]);
    assert_eq!(asked, providers()[..1].to_vec());
    assert_eq!(outcome, Err(json_rpc_error(-32000)));

    let (asked, outcome) = run(vec![Err(outcall_error(500)), Err(json_rpc_error(-1)), Ok("c")]);
    assert_eq!(asked, providers()[..2].to_vec());
    assert_eq!(outcome, Err(json_rpc_error(-1)));
}

#[test]
fn last_error_is_the_outcome_of_a_failed_sequential_call() {
    let (asked, outcome) = run(vec![
        Err(outcall_error(500)),
        Err(RpcError::from(ProviderError::NoPermission)),
        Err(outcall_error(503)),
    ]);
    assert_eq!(asked, providers());
    assert_eq!(outcome, Err(RpcError::HttpOutcallError(HttpOutcallError(503))));

    let (asked, outcome) = run(vec![
        Err(outcall_error(503)),
        Err(outcall_error(504)),
        Err(json_rpc_error(-32000)),
    ]);
    assert_eq!(asked, providers());
    assert_eq!(outcome, Err(json_rpc_error(-32000)));
}

#[test]
fn one_provider_has_the_only_word() {
    let service = vec![RpcService::EthMainnet(EthMainnetService::Alchemy)];
    let call = SequentialCall::new(request(), service);
    let reply: Reply = Err(json_rpc_error(3));
    match call.on_reply(reply) {
        SequentialStep::Done(outcome) => assert_eq!(outcome, Err(json_rpc_error(3))),
        SequentialStep::Ask(_) => panic!("nobody is left to ask"),
    }
}

#[test]
fn errors_become_rpc_errors_of_their_kind() {
    let error: RpcError<u16> = ProviderError::TooFewCycles { expected: 5, received: 3 }.into();
    assert_eq!(
        error,
        RpcError::ProviderError(ProviderError::TooFewCycles { expected: 5, received: 3 })
    );
    assert_eq!(
        RpcError::<u16>::from(ValidationError::HostNotAllowed("example.com".to_string())),
        RpcError::ValidationError(ValidationError::HostNotAllowed("example.com".to_string()))
    );
    assert_eq!(
        json_rpc_error(7),
        RpcError::JsonRpcError(JsonRpcError { code: 7, message: "failed".to_string() })
    );
    assert_eq!(outcall_error(9), RpcError::HttpOutcallError(HttpOutcallError(9)));
}

#[test]
fn collected_results_belong_to_their_providers() {
    let call = ParallelCall { request: request(), providers: providers() };
    let results: Vec<Reply> = vec![Ok("a"), Err(outcall_error(500)), Ok("c")];
    let collected = call.collect(results);
    assert_eq!(
        collected,
        vec![
            (RpcService::EthMainnet(EthMainnetService::Cloudflare), Ok("a")),
            (RpcService::EthSepolia(EthSepoliaService::BlockPi), Err(outcall_error(500))),
            (RpcService::EthMainnet(EthMainnetService::Ankr), Ok("c")),
        ]
    );
}

#[test]
fn results_beyond_the_providers_are_dropped() {
    let call = ParallelCall { request: request(), providers: providers() };
    assert_eq!(call.collect(vec![1, 2, 3, 4]).len(), 3);
    assert_eq!(
        call.collect(vec![1]),
        vec![(RpcService::EthMainnet(EthMainnetService::Cloudflare), 1)]
    );
    assert_eq!(call.collect(Vec::<u8>::new()), vec![]);
}
