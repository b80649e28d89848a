use eth_rpc_client::e2e::{
    check_response, request_args, unpaid_response_message, EthRpcError, Failure, Source, Step,
};

fn too_few_cycles(expected: u128) -> EthRpcError {
    EthRpcError::TooFewCycles { expected, text: "too few cycles".to_string() }
}

fn other() -> EthRpcError {
    EthRpcError::Other { text: "no permission".to_string() }
}

fn trap(message: &str) -> Step {
    Step::Failed(Failure::Trap(message.to_string()))
}

const RESPONSE: &str = "{\"jsonrpc\":\"2.0\",\"result\":\"0x3b9aca00\",\"id\":1}";

#[test]
fn request_asks_for_the_gas_price() {
    let args = request_args();
    assert_eq!(
        args.source,
        Source::Service { hostname: "cloudflare-eth.com".to_string(), chain_id: Some(1) }
    );
    assert_eq!(
        args.json_rpc_payload,
        "{\"jsonrpc\":\"2.0\",\"method\":\"eth_gasPrice\",\"params\":null,\"id\":1}"
    );
    assert_eq!(args.max_response_bytes, 1000);
}

#[test]
fn good_replies_pass() {
    let step = Step::start();
    assert_eq!(step, Step::QueryCost);
    let step = step.on_cost(Ok(100));
    assert_eq!(step, Step::RequestUnpaid { cycles: 100 });
    let step = step.on_response(Err(too_few_cycles(100)));
    assert_eq!(step, Step::RequestPaid { cycles: 100 });
    let step = step.on_response(Ok(RESPONSE.to_string()));
    assert_eq!(step, Step::Passed);
}

#[test]
fn cost_has_to_be_known() {
    assert_eq!(
        Step::start().on_cost(Err(other())),
        trap("error in `request_cost`: no permission")
    );
    assert_eq!(
        Step::start().on_cost(Err(too_few_cycles(1))),
        trap("error in `request_cost`: too few cycles")
    );
}

#[test]
fn unpaid_request_has_to_be_refused_for_its_cost() {
    let step = Step::RequestUnpaid { cycles: 100 };
    assert_eq!(
        step.clone().on_response(Err(too_few_cycles(101))),
        Step::Failed(Failure::UnequalCost { expected: 101, cycles: 100 })
    );
    assert_eq!(
        step.clone().on_response(Err(other())),
        trap("error in `request` without cycles: no permission")
    );
    assert_eq!(
        step.on_response(Ok("say \"hi\"\n".to_string())),
        trap("response from `request` without cycles: \"say \\\"hi\\\"\\n\"")
    );
    assert_eq!(
        unpaid_response_message("\"x\""),
        "response from `request` without cycles: \"x\""
    );
}

#[test]
fn paid_request_has_to_be_answered() {
    let step = Step::RequestPaid { cycles: 100 };
    assert_eq!(
        step.clone().on_response(Err(too_few_cycles(100))),
        trap("error in `request` with cycles: too few cycles")
    );
    assert_eq!(
        step.clone().on_response(Err(other())),
        trap("error in `request` with cycles: no permission")
    );
    assert_eq!(
        step.on_response(Ok("{}".to_string())),
        Step::Failed(Failure::MalformedResponse("{}".to_string()))
    );
}

#[test]
fn structure_around_the_gas_price_is_checked() {
    assert!(check_response(RESPONSE));
    assert!(check_response("{\"jsonrpc\":\"2.0\",\"result\":\"0x\",\"id\":1}"));
    assert!(check_response("{\"jsonrpc\":\"2.0\",\"result\":\"0x\u{e9}\u{1f600}\",\"id\":1}"));
    assert!(!check_response(""));
    assert!(!check_response("{\"jsonrpc\":\"2.0\",\"result\":\"0x"));
    assert!(!check_response("\",\"id\":1}"));
    assert!(!check_response("{\"jsonrpc\":\"2.0\",\"result\":\"0x1\",\"id\":2}"));
    assert!(!check_response("{\"jsonrpc\":\"2.1\",\"result\":\"0x1\",\"id\":1}"));
    assert!(!check_response("{\"jsonrpc\":\"2.0\",\"result\":\"\u{e9}\",\"id\":1}"));
}
