//! An end-to-end check of a deployed JSON-RPC canister. It asks what a request
//! costs, checks that the canister refuses the request without payment, pays
//! for it, and checks the response.
//!
//! A caller makes the canister calls. The check says which one comes next and
//! judges the replies.

use vstd::prelude::*;
use vstd::utf8::{encode_utf8, is_ascii_chars};

verus! {

/// Where a request is to be sent.
#[derive(Clone, Debug, PartialEq, Eq)]
pub enum Source {
    Service { hostname: String, chain_id: Option<u64> },
}

/// The arguments of a request, which are those of its cost too.
#[derive(Clone, Debug, PartialEq, Eq)]
pub struct RequestArgs {
    pub source: Source,
    pub json_rpc_payload: String,
    pub max_response_bytes: u64,
}

/// The request that the check makes: the gas price, from a provider of the
/// Ethereum mainnet.
pub fn request_args() -> (args: RequestArgs)
    ensures
        args.source matches Source::Service { hostname, chain_id } && hostname@
            == "cloudflare-eth.com"@ && chain_id == Some(1u64),
        args.json_rpc_payload@
            == "{\"jsonrpc\":\"2.0\",\"method\":\"eth_gasPrice\",\"params\":null,\"id\":1}"@,
        args.max_response_bytes == 1000,
{
    RequestArgs {
        source: Source::Service {
            hostname: "cloudflare-eth.com".to_owned(),
            chain_id: Some(1),  // Ethereum mainnet
        },
        json_rpc_payload:
            "{\"jsonrpc\":\"2.0\",\"method\":\"eth_gasPrice\",\"params\":null,\"id\":1}".to_owned(),
        max_response_bytes: 1000,
    }
}

/// An error of the canister, with the text that it is shown as.
#[derive(Clone, Debug, PartialEq, Eq)]
pub enum EthRpcError {
    /// The request was paid less than the `expected` cycles.
    TooFewCycles { expected: u128, text: String },
    /// Any other error.
    Other { text: String },
}

impl EthRpcError {
    /// The text that the error is shown as.
    pub open spec fn shown(self) -> Seq<char> {
        match self {
            EthRpcError::TooFewCycles { text, .. } => text@,
            EthRpcError::Other { text } => text@,
        }
    }

    /// The text that the error is shown as.
    pub fn text(&self) -> (text: &str)
        ensures
            text@ == self.shown(),
            *self matches EthRpcError::TooFewCycles { text: message, .. } ==> text@ == message@,
            *self matches EthRpcError::Other { text: message } ==> text@ == message@,
    {
        match self {
            EthRpcError::TooFewCycles { text, .. } => text.as_str(),
            EthRpcError::Other { text } => text.as_str(),
        }
    }
}

/// Why the check failed.
#[derive(Clone, Debug, PartialEq, Eq)]
pub enum Failure {
    /// The canister replied with something that the check does not allow; the
    /// message says what it was.
    Trap(String),
    /// The canister asks `expected` cycles for a request for which it quoted
    /// `cycles`.
    UnequalCost { expected: u128, cycles: u128 },
    /// The response has not the structure of a gas price.
    MalformedResponse(String),
}

/// What comes next.
#[derive(Clone, Debug, PartialEq, Eq)]
pub enum Step {
    /// Ask what the request costs.
    QueryCost,
    /// Make the request without payment.
    RequestUnpaid { cycles: u128 },
    /// Make the request and pay `cycles` for it.
    RequestPaid { cycles: u128 },
    /// The check is over: all is well.
    Passed,
    /// The check is over.
    Failed(Failure),
}

pub enum FailureView {
    Trap(Seq<char>),
    UnequalCost { expected: u128, cycles: u128 },
    MalformedResponse(Seq<char>),
}

pub enum StepView {
    QueryCost,
    RequestUnpaid { cycles: u128 },
    RequestPaid { cycles: u128 },
    Passed,
    Failed(FailureView),
}

impl View for Failure {
    type V = FailureView;

    open spec fn view(&self) -> FailureView {
        match *self {
            Failure::Trap(message) => FailureView::Trap(message@),
            Failure::UnequalCost { expected, cycles } => FailureView::UnequalCost {
                expected,
                cycles,
            },
            Failure::MalformedResponse(response) => FailureView::MalformedResponse(response@),
        }
    }
}

impl View for Step {
    type V = StepView;

    open spec fn view(&self) -> StepView {
        match *self {
            Step::QueryCost => StepView::QueryCost,
            Step::RequestUnpaid { cycles } => StepView::RequestUnpaid { cycles },
            Step::RequestPaid { cycles } => StepView::RequestPaid { cycles },
            Step::Passed => StepView::Passed,
            Step::Failed(failure) => StepView::Failed(failure@),
        }
    }
}

/// What the debug format of std makes of a string: the string in quotes, with
/// escapes.
pub uninterp spec fn debug_format(text: Seq<char>) -> Seq<char>;

/// The string in debug format, by `format!` with `{:?}`. How characters are
/// escaped is left to std.
#[verifier::external_body]
fn to_debug_format(text: &str) -> (shown: String)
    ensures
        shown@ == debug_format(text@),
{
    format!("{:?}", text)
}

/// A reply to the unpaid request that is no error, where `response` is that
/// reply in debug format.
pub fn unpaid_response_message(response: &str) -> (message: String)
    ensures
        message@ == "response from `request` without cycles: "@ + response@,
{
    "response from `request` without cycles: ".to_owned().concat(response)
}

/// What the response to a gas price request begins with.
pub open spec fn response_prefix() -> Seq<char> {
    "{\"jsonrpc\":\"2.0\",\"result\":\"0x"@
}

/// What it ends with.
pub open spec fn response_suffix() -> Seq<char> {
    "\",\"id\":1}"@
}

/// `response` has the structure around a gas price.
pub open spec fn is_gas_price_response(response: Seq<char>) -> bool {
    &&& encode_utf8(response_prefix()).is_prefix_of(encode_utf8(response))
    &&& encode_utf8(response_suffix()).is_suffix_of(encode_utf8(response))
}

fn has_prefix(bytes: &[u8], prefix: &[u8]) -> (found: bool)
    ensures
        found == prefix@.is_prefix_of(bytes@),
{
    if bytes.len() < prefix.len() {
        return false;
    }
    let mut i: usize = 0;
    while i < prefix.len()
        invariant
            i <= prefix@.len() <= bytes@.len(),
            forall|j: int| 0 <= j < i ==> prefix@[j] == bytes@[j],
        decreases prefix@.len() - i,
    {
        if bytes[i] != prefix[i] {
            assert(bytes@.subrange(0, prefix@.len() as int)[i as int] != prefix@[i as int]);
            return false;
        }
        i += 1;
    }
    assert(prefix@ =~= bytes@.subrange(0, prefix@.len() as int));
    true
}

fn has_suffix(bytes: &[u8], suffix: &[u8]) -> (found: bool)
    ensures
        found == suffix@.is_suffix_of(bytes@),
{
    if bytes.len() < suffix.len() {
        return false;
    }
    let total: usize = bytes.len();
    let start: usize = total - suffix.len();
    let ghost end = bytes@.subrange(start as int, bytes@.len() as int);
    let mut i: usize = 0;
    while i < suffix.len()
        invariant
            start + suffix@.len() == total == bytes@.len(),
            i <= suffix@.len(),
            end == bytes@.subrange(start as int, bytes@.len() as int),
            forall|j: int| 0 <= j < i ==> suffix@[j] == end[j],
        decreases suffix@.len() - i,
    {
        if bytes[start + i] != suffix[i] {
            assert(end[i as int] != suffix@[i as int]);
            return false;
        }
        i += 1;
    }
    assert(suffix@ =~= end);
    true
}

/// Checks the structure of a response around the gas price.
pub fn check_response(response: &str) -> (valid: bool)
    ensures
        valid == is_gas_price_response(response@),
        valid <==> "{\"jsonrpc\":\"2.0\",\"result\":\"0x"@.is_prefix_of(response@)
            && "\",\"id\":1}"@.is_suffix_of(response@),
{
    proof {
        law_accepted_response(response@);
    }
    let bytes = response.as_bytes();
    has_prefix(bytes, "{\"jsonrpc\":\"2.0\",\"result\":\"0x".as_bytes()) && has_suffix(
        bytes,
        "\",\"id\":1}".as_bytes(),
    )
}

impl StepView {
    /// What follows the reply to the query of the cost.
    pub open spec fn after_cost(reply: Result<u128, EthRpcError>) -> StepView {
        match reply {
            Ok(cycles) => StepView::RequestUnpaid { cycles },
            Err(error) => StepView::Failed(
                FailureView::Trap("error in `request_cost`: "@ + error.shown()),
            ),
        }
    }

    /// What follows the reply to the unpaid request, which has to be refused
    /// for the quoted cost.
    pub open spec fn after_unpaid(cycles: u128, reply: Result<String, EthRpcError>) -> StepView {
        match reply {
            Ok(response) => StepView::Failed(
                FailureView::Trap(
                    "response from `request` without cycles: "@ + debug_format(response@),
                ),
            ),
            Err(EthRpcError::TooFewCycles { expected, .. }) => if expected == cycles {
                StepView::RequestPaid { cycles }
            } else {
                StepView::Failed(FailureView::UnequalCost { expected, cycles })
            },
            Err(error) => StepView::Failed(
                FailureView::Trap("error in `request` without cycles: "@ + error.shown()),
            ),
        }
    }

    /// What follows the reply to the paid request, which has to be answered.
    pub open spec fn after_paid(reply: Result<String, EthRpcError>) -> StepView {
        match reply {
            Ok(response) => if is_gas_price_response(response@) {
                StepView::Passed
            } else {
                StepView::Failed(FailureView::MalformedResponse(response@))
            },
            Err(error) => StepView::Failed(
                FailureView::Trap("error in `request` with cycles: "@ + error.shown()),
            ),
        }
    }

    /// What follows a reply to this step, a request.
    pub open spec fn after_response(self, reply: Result<String, EthRpcError>) -> StepView {
        match self {
            StepView::RequestUnpaid { cycles } => Self::after_unpaid(cycles, reply),
            StepView::RequestPaid { .. } => Self::after_paid(reply),
            _ => self,
        }
    }
}

impl Step {
    /// The first step.
    pub fn start() -> (step: Step)
        ensures
            step == Step::QueryCost,
    {
        Step::QueryCost
    }

    /// Takes the reply to the query of the cost.
    pub fn on_cost(self, reply: Result<u128, EthRpcError>) -> (next: Step)
        requires
            self is QueryCost,
        ensures
            next@ == StepView::after_cost(reply),
            reply matches Ok(cycles) ==> next == (Step::RequestUnpaid { cycles }),
            reply matches Err(EthRpcError::TooFewCycles { text, .. }) ==> (next matches Step::Failed(
                Failure::Trap(message),
            ) && message@ == "error in `request_cost`: "@ + text@),
            reply matches Err(EthRpcError::Other { text }) ==> (next matches Step::Failed(
                Failure::Trap(message),
            ) && message@ == "error in `request_cost`: "@ + text@),
    {
        match reply {
            Ok(cycles) => Step::RequestUnpaid { cycles },
            Err(error) => Step::Failed(
                Failure::Trap("error in `request_cost`: ".to_owned().concat(error.text())),
            ),
        }
    }

    /// Takes the reply to a request.
    pub fn on_response(self, reply: Result<String, EthRpcError>) -> (next: Step)
        requires
            self is RequestUnpaid || self is RequestPaid,
        ensures
            next@ == self@.after_response(reply),
            self matches Step::RequestUnpaid { cycles } ==> {
                &&& reply matches Ok(response) ==> (next matches Step::Failed(
                    Failure::Trap(message),
                ) && message@ == "response from `request` without cycles: "@ + debug_format(
                    response@,
                ))
                &&& reply matches Err(EthRpcError::TooFewCycles { expected, .. }) ==> {
                    &&& expected == cycles ==> next == (Step::RequestPaid { cycles })
                    &&& expected != cycles ==> next == Step::Failed(
                        Failure::UnequalCost { expected, cycles },
                    )
                }
                &&& reply matches Err(EthRpcError::Other { text }) ==> (next matches Step::Failed(
                    Failure::Trap(message),
                ) && message@ == "error in `request` without cycles: "@ + text@)
            },
            self is RequestPaid ==> {
                &&& reply matches Ok(response) ==> {
                    let accepted = "{\"jsonrpc\":\"2.0\",\"result\":\"0x"@.is_prefix_of(response@)
                        && "\",\"id\":1}"@.is_suffix_of(response@);
                    &&& accepted ==> next == Step::Passed
                    &&& !accepted ==> next == Step::Failed(Failure::MalformedResponse(response))
                }
                &&& reply matches Err(EthRpcError::TooFewCycles { text, .. }) ==> (
                next matches Step::Failed(Failure::Trap(message)) && message@
                    == "error in `request` with cycles: "@ + text@)
                &&& reply matches Err(EthRpcError::Other { text }) ==> (next matches Step::Failed(
                    Failure::Trap(message),
                ) && message@ == "error in `request` with cycles: "@ + text@)
            },
    {
        match (self, reply) {
            (Step::RequestUnpaid { .. }, Ok(response)) => {
                let quoted = to_debug_format(response.as_str());
                Step::Failed(Failure::Trap(unpaid_response_message(quoted.as_str())))
            },
            (
                Step::RequestUnpaid { cycles },
                Err(EthRpcError::TooFewCycles { expected, .. }),
            ) => if expected == cycles {
                Step::RequestPaid { cycles }
            } else {
                Step::Failed(Failure::UnequalCost { expected, cycles })
            },
            (Step::RequestUnpaid { .. }, Err(error)) => Step::Failed(
                Failure::Trap("error in `request` without cycles: ".to_owned().concat(error.text())),
            ),
            (_, Ok(response)) => if check_response(response.as_str()) {
                Step::Passed
            } else {
                Step::Failed(Failure::MalformedResponse(response))
            },
            (_, Err(error)) => Step::Failed(
                Failure::Trap("error in `request` with cycles: ".to_owned().concat(error.text())),
            ),
        }
    }
}

/// The check passes exactly if the canister quotes a cost, refuses the unpaid
/// request for that very cost, and answers the paid one with a response of the
/// structure of a gas price. What it pays is the cost that was quoted.
pub proof fn law_check(
    cost: Result<u128, EthRpcError>,
    unpaid: Result<String, EthRpcError>,
    paid: Result<String, EthRpcError>,
)
    ensures
        ({
            let second = StepView::after_cost(cost);
            let third = second.after_response(unpaid);
            let last = third.after_response(paid);
            &&& last == StepView::Passed <==> {
                &&& cost matches Ok(cycles) && unpaid matches Err(
                    EthRpcError::TooFewCycles { expected, .. },
                ) && expected == cycles
                &&& paid matches Ok(response) && is_gas_price_response(response@)
            }
            &&& third matches StepView::RequestPaid { cycles } ==> cost == Ok::<u128, EthRpcError>(
                cycles,
            )
        }),
{
}

proof fn lemma_encode_concat(a: Seq<char>, b: Seq<char>)
    ensures
        encode_utf8(a + b) == encode_utf8(a) + encode_utf8(b),
    decreases a.len(),
{
    if a.len() == 0 {
        assert(a + b =~= b);
    } else {
        lemma_encode_concat(a.drop_first(), b);
        assert((a + b).drop_first() =~= a.drop_first() + b);
    }
}

/// Any text between the beginning and the end of the structure is accepted.
pub proof fn law_gas_price_accepted(price: Seq<char>)
    ensures
        is_gas_price_response(response_prefix() + price + response_suffix()),
{
    let prefix = response_prefix();
    let suffix = response_suffix();
    lemma_encode_concat(prefix, price);
    lemma_encode_concat(prefix + price, suffix);
    let bytes = encode_utf8(prefix + price + suffix);
    let start = encode_utf8(prefix);
    let end = encode_utf8(suffix);
    assert(start =~= bytes.subrange(0, start.len() as int));
    assert(end =~= bytes.subrange(bytes.len() - end.len(), bytes.len() as int));
}

proof fn lemma_encoded_prefix(p: Seq<char>, r: Seq<char>)
    requires
        encode_utf8(p).is_prefix_of(encode_utf8(r)),
    ensures
        p.is_prefix_of(r),
    decreases p.len(),
{
    if p.len() == 0 {
        assert(p =~= r.subrange(0, 0));
    } else {
        let start = encode_utf8(p);
        let bytes = encode_utf8(r);
        vstd::utf8::encode_utf8_first_scalar(p);
        assert(r.len() > 0);
        vstd::utf8::encode_utf8_first_scalar(r);
        assert forall|i: int| 0 <= i < start.len() implies start[i] == bytes[i] by {
            assert(start[i] == bytes.subrange(0, start.len() as int)[i]);
        }
        assert(p[0] as u32 == r[0] as u32);
        vstd::utf8::char_u32_cast(p[0], p[0] as u32);
        vstd::utf8::char_u32_cast(r[0], r[0] as u32);
        assert(p[0] == r[0]);
        let start_rest = encode_utf8(p.drop_first());
        let bytes_rest = encode_utf8(r.drop_first());
        assert(start_rest =~= bytes_rest.subrange(0, start_rest.len() as int)) by {
            let n = vstd::utf8::encode_scalar(p[0] as u32).len() as int;
            assert forall|i: int| 0 <= i < start_rest.len() implies start_rest[i]
                == bytes_rest[i] by {
                assert(start_rest[i] == start[n + i]);
                assert(bytes_rest[i] == bytes[n + i]);
            }
        }
        lemma_encoded_prefix(p.drop_first(), r.drop_first());
        assert forall|i: int| 0 <= i < p.len() implies p[i] == r[i] by {
            if i > 0 {
                assert(p.drop_first()[i - 1] == r.drop_first().subrange(0, p.len() - 1)[i - 1]);
            }
        }
        assert(p =~= r.subrange(0, p.len() as int));
    }
}

proof fn lemma_encoded_last(r: Seq<char>)
    requires
        r.len() > 0,
    ensures
        encode_utf8(r).len() > 0,
        r.last() as u32 <= 0x7f ==> encode_utf8(r) == encode_utf8(r.drop_last()).push(
            (r.last() as u32) as u8,
        ),
        r.last() as u32 > 0x7f ==> encode_utf8(r).last() >= 0x80,
{
    let c = r.last() as u32;
    let last = seq![r.last()];
    vstd::utf8::char_is_scalar(r.last());
    assert(r =~= r.drop_last() + last);
    lemma_encode_concat(r.drop_last(), last);
    assert(last.drop_first() =~= Seq::<char>::empty());
    assert(encode_utf8(Seq::<char>::empty()) =~= Seq::<u8>::empty());
    assert(last[0] == r.last());
    assert(encode_utf8(last) =~= vstd::utf8::encode_scalar(c));
    if c <= 0x7f {
        assert((c & 0x7f) as u8 == c as u8) by (bit_vector)
            requires
                c <= 0x7f,
        ;
        assert(encode_utf8(r) =~= encode_utf8(r.drop_last()).push(c as u8));
    } else {
        let b = (c & 0x3f) as u8;
        assert(0x80u8 | b >= 0x80) by (bit_vector);
    }
}

proof fn lemma_encoded_suffix(s: Seq<char>, r: Seq<char>)
    requires
        is_ascii_chars(s),
        encode_utf8(s).is_suffix_of(encode_utf8(r)),
    ensures
        s.is_suffix_of(r),
    decreases s.len(),
{
    if s.len() == 0 {
        assert(s =~= r.subrange(r.len() as int, r.len() as int));
    } else {
        let end = encode_utf8(s);
        let bytes = encode_utf8(r);
        lemma_encoded_last(s);
        assert(r.len() > 0);
        lemma_encoded_last(r);
        assert forall|i: int| 0 <= i < end.len() implies end[i] == bytes[bytes.len() - end.len()
            + i] by {
            assert(end[i] == bytes.subrange(bytes.len() - end.len(), bytes.len() as int)[i]);
        }
        assert(s.last() as u32 <= 0x7f);
        assert(end.last() == bytes.last());
        assert(r.last() as u32 <= 0x7f);
        vstd::utf8::char_u32_cast(s.last(), s.last() as u32);
        vstd::utf8::char_u32_cast(r.last(), r.last() as u32);
        assert(s.last() == r.last());
        let end_rest = encode_utf8(s.drop_last());
        let bytes_rest = encode_utf8(r.drop_last());
        assert(end_rest =~= bytes_rest.subrange(
            bytes_rest.len() - end_rest.len(),
            bytes_rest.len() as int,
        )) by {
            assert forall|i: int| 0 <= i < end_rest.len() implies end_rest[i]
                == bytes_rest[bytes_rest.len() - end_rest.len() + i] by {
                assert(end_rest[i] == end[i]);
            }
        }
        lemma_encoded_suffix(s.drop_last(), r.drop_last());
        assert forall|i: int| 0 <= i < s.len() implies s[i] == r[r.len() - s.len() + i] by {
            if i < s.len() - 1 {
                let rest = r.drop_last();
                assert(s.drop_last()[i] == rest.subrange(
                    rest.len() - (s.len() - 1),
                    rest.len() as int,
                )[i]);
            }
        }
        assert(s =~= r.subrange(r.len() - s.len(), r.len() as int));
    }
}

/// A response is accepted exactly if it begins and ends with the characters
/// that stand around a gas price.
pub proof fn law_accepted_response(response: Seq<char>)
    ensures
        is_gas_price_response(response) <==> "{\"jsonrpc\":\"2.0\",\"result\":\"0x"@.is_prefix_of(
            response,
        ) && "\",\"id\":1}"@.is_suffix_of(response),
{
    let prefix = "{\"jsonrpc\":\"2.0\",\"result\":\"0x"@;
    let suffix = "\",\"id\":1}"@;
    reveal_strlit("\",\"id\":1}");
    assert(is_ascii_chars(suffix));
    let bytes = encode_utf8(response);
    if is_gas_price_response(response) {
        lemma_encoded_prefix(prefix, response);
        lemma_encoded_suffix(suffix, response);
    }
    if prefix.is_prefix_of(response) && suffix.is_suffix_of(response) {
        let after_prefix = response.subrange(prefix.len() as int, response.len() as int);
        assert(response =~= prefix + after_prefix);
        lemma_encode_concat(prefix, after_prefix);
        let start = encode_utf8(prefix);
        assert(start =~= bytes.subrange(0, start.len() as int));
        let before_suffix = response.subrange(0, response.len() - suffix.len());
        assert(response =~= before_suffix + suffix);
        lemma_encode_concat(before_suffix, suffix);
        let end = encode_utf8(suffix);
        assert(end =~= bytes.subrange(bytes.len() - end.len(), bytes.len() as int));
    }
}

/// A response without the beginning or without the end of the structure, such
/// as a JSON-RPC error, is rejected, and the check does not pass with it.
pub proof fn law_other_response_rejected(response: Seq<char>)
    requires
        !"{\"jsonrpc\":\"2.0\",\"result\":\"0x"@.is_prefix_of(response) || !"\",\"id\":1}"@.is_suffix_of(
            response,
        ),
    ensures
        !is_gas_price_response(response),
        forall|text: String|
            text@ == response ==> StepView::after_paid(Ok(text)) != StepView::Passed,
{
    law_accepted_response(response);
}

/// The check passes exactly if a cost is quoted, the unpaid request is refused
/// as paid too little of that very cost, and the paid request is answered with
/// a response that begins and ends like a gas price. It never goes on to the
/// paid request unless the refusal names the quoted cost.
pub proof fn law_check_by_replies(
    cost: Result<u128, EthRpcError>,
    unpaid: Result<String, EthRpcError>,
    paid: Result<String, EthRpcError>,
)
    ensures
        ({
            let second = StepView::after_cost(cost);
            let third = second.after_response(unpaid);
            let last = third.after_response(paid);
            let refused = cost matches Ok(cycles) && unpaid matches Err(
                EthRpcError::TooFewCycles { expected, .. },
            ) && expected == cycles;
            let answered = paid matches Ok(response)
                && "{\"jsonrpc\":\"2.0\",\"result\":\"0x"@.is_prefix_of(response@)
                && "\",\"id\":1}"@.is_suffix_of(response@);
            &&& third is RequestPaid <==> refused
            &&& third matches StepView::RequestPaid { cycles } ==> cost == Ok::<u128, EthRpcError>(
                cycles,
            )
            &&& last is Passed <==> refused && answered
        }),
{
    if let Ok(response) = paid {
        law_accepted_response(response@);
    }
}

/// What a failed check reports: the error of the canister by its text, behind
/// words that say which call it came from; both costs if they differ; and the
/// response if it is malformed.
pub proof fn law_failures_reported(
    cycles: u128,
    expected: u128,
    text: String,
    response: String,
)
    ensures
        StepView::after_cost(Err(EthRpcError::Other { text })) == StepView::Failed(
            FailureView::Trap("error in `request_cost`: "@ + text@),
        ),
        StepView::after_cost(Err(EthRpcError::TooFewCycles { expected, text }))
            == StepView::Failed(FailureView::Trap("error in `request_cost`: "@ + text@)),
        StepView::after_unpaid(cycles, Err(EthRpcError::Other { text })) == StepView::Failed(
            FailureView::Trap("error in `request` without cycles: "@ + text@),
        ),
        StepView::after_unpaid(cycles, Ok(response)) == StepView::Failed(
            FailureView::Trap(
                "response from `request` without cycles: "@ + debug_format(response@),
            ),
        ),
        expected != cycles ==> StepView::after_unpaid(
            cycles,
            Err(EthRpcError::TooFewCycles { expected, text }),
        ) == StepView::Failed(FailureView::UnequalCost { expected, cycles }),
        StepView::after_paid(Err(EthRpcError::Other { text })) == StepView::Failed(
            FailureView::Trap("error in `request` with cycles: "@ + text@),
        ),
        StepView::after_paid(Err(EthRpcError::TooFewCycles { expected, text }))
            == StepView::Failed(FailureView::Trap("error in `request` with cycles: "@ + text@)),
        StepView::after_paid(Ok(response)) is Passed || StepView::after_paid(Ok(response))
            == StepView::Failed(FailureView::MalformedResponse(response@)),
{
}

} // verus!
