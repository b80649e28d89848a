//! Calls to several providers: one after another until one succeeds, or all at
//! once.

use crate::error::RpcError;
use crate::service::RpcService;
use vstd::prelude::*;

verus! {

/// What a provider is sent.
#[derive(Clone, Debug, PartialEq, Eq)]
pub struct RpcRequest<I> {
    /// The JSON-RPC method.
    pub method: String,
    /// Its parameters.
    pub params: I,
    /// The expected size of the response in bytes, HTTP headers included.
    pub response_size_estimate: u64,
}

impl<I> RpcRequest<I> {
    /// The request is for `method` and expects a response of `size` bytes.
    pub open spec fn calls(self, method: Seq<char>, size: int) -> bool {
        &&& self.method@ == method
        &&& self.response_size_estimate == size
    }
}

/// The provider answered: with a value, or with a JSON-RPC error. Any other
/// error means that there is no answer of the provider.
pub open spec fn answers<O, H>(reply: Result<O, RpcError<H>>) -> bool {
    match reply {
        Ok(_) => true,
        Err(error) => error is JsonRpcError,
    }
}

/// A call that goes to the providers one after another, until one of them
/// answers.
#[derive(Debug)]
pub struct SequentialCall<I> {
    request: RpcRequest<I>,
    providers: Vec<RpcService>,
    position: usize,
}

/// A sequential call: its request, and the providers that have not replied
/// yet, in the order in which they are asked.
pub struct SequentialView<I> {
    pub request: RpcRequest<I>,
    pub pending: Seq<RpcService>,
}

/// What follows a reply: another provider is asked, or the call is over.
#[derive(Debug)]
pub enum SequentialStep<I, O, H> {
    Ask(SequentialCall<I>),
    Done(Result<O, RpcError<H>>),
}

pub enum SequentialStepView<I, O, H> {
    Ask(SequentialView<I>),
    Done(Result<O, RpcError<H>>),
}

impl<I> View for SequentialCall<I> {
    type V = SequentialView<I>;

    closed spec fn view(&self) -> SequentialView<I> {
        SequentialView {
            request: self.request,
            pending: self.providers@.skip(self.position as int),
        }
    }
}

impl<I, O, H> View for SequentialStep<I, O, H> {
    type V = SequentialStepView<I, O, H>;

    open spec fn view(&self) -> SequentialStepView<I, O, H> {
        match *self {
            SequentialStep::Ask(call) => SequentialStepView::Ask(call@),
            SequentialStep::Done(outcome) => SequentialStepView::Done(outcome),
        }
    }
}

impl<I> SequentialView<I> {
    /// What follows `reply`, the reply of the first pending provider. An
    /// answer ends the call, a JSON-RPC error like a value. Any other error
    /// passes the call on to the next provider, and is the outcome if there is
    /// none.
    pub open spec fn after<O, H>(self, reply: Result<O, RpcError<H>>) -> SequentialStepView<
        I,
        O,
        H,
    > {
        if answers(reply) || self.pending.len() <= 1 {
            SequentialStepView::Done(reply)
        } else {
            SequentialStepView::Ask(
                SequentialView { request: self.request, pending: self.pending.drop_first() },
            )
        }
    }

    /// What is asked of whom, in order, and the outcome, where `replies[i]` is
    /// what the pending provider at `i` replies if it is asked.
    pub open spec fn run<O, H>(self, replies: Seq<Result<O, RpcError<H>>>) -> (
        Seq<(RpcService, RpcRequest<I>)>,
        Result<O, RpcError<H>>,
    )
        recommends
            0 < self.pending.len() == replies.len(),
        decreases replies.len(),
    {
        if replies.len() == 0 {
            (seq![], arbitrary())
        } else {
            let asked = seq![(self.pending[0], self.request)];
            match self.after(replies[0]) {
                SequentialStepView::Done(outcome) => (asked, outcome),
                SequentialStepView::Ask(next) => {
                    let (asked_later, outcome) = next.run(replies.drop_first());
                    (asked + asked_later, outcome)
                },
            }
        }
    }
}

impl<I> SequentialCall<I> {
    #[verifier::type_invariant]
    spec fn has_pending(self) -> bool {
        self.position < self.providers@.len()
    }

    /// The call that sends `request` to `providers`, the first one first.
    pub fn new(request: RpcRequest<I>, providers: Vec<RpcService>) -> (call: Self)
        requires
            providers@.len() > 0,
        ensures
            call@ == (SequentialView { request, pending: providers@ }),
            call@.request == request,
            call@.pending == providers@,
    {
        let call = SequentialCall { request, providers, position: 0 };
        assert(call@.pending =~= providers@);
        call
    }

    /// The provider to ask now.
    pub fn provider(&self) -> (provider: RpcService)
        ensures
            self@.pending.len() > 0,
            provider == self@.pending[0],
    {
        proof {
            use_type_invariant(self);
        }
        self.providers[self.position]
    }

    /// What to send it.
    pub fn request(&self) -> (request: &RpcRequest<I>)
        ensures
            *request == self@.request,
    {
        &self.request
    }

    /// Takes the reply of the provider that was asked.
    pub fn on_reply<O, H>(self, reply: Result<O, RpcError<H>>) -> (step: SequentialStep<I, O, H>)
        ensures
            step@ == self@.after(reply),
            reply is Ok ==> step == SequentialStep::<I, O, H>::Done(reply),
            reply matches Err(RpcError::JsonRpcError(_)) ==> step
                == SequentialStep::<I, O, H>::Done(reply),
            (reply matches Err(RpcError::ProviderError(_)) || reply matches Err(
                RpcError::HttpOutcallError(_),
            ) || reply matches Err(RpcError::ValidationError(_))) ==> {
                &&& self@.pending.len() >= 2 ==> (step matches SequentialStep::Ask(next)
                    && next@.request == self@.request && next@.pending == self@.pending.skip(1))
                &&& self@.pending.len() < 2 ==> step == SequentialStep::<I, O, H>::Done(reply)
            },
    {
        proof {
            use_type_invariant(&self);
        }
        match reply {
            Ok(value) => SequentialStep::Done(Ok(value)),
            Err(RpcError::JsonRpcError(error)) => SequentialStep::Done(
                Err(RpcError::JsonRpcError(error)),
            ),
            Err(error) => {
                let last: usize = self.providers.len() - 1;
                if self.position < last {
                    let ghost pending = self@.pending;
                    let call = SequentialCall {
                        request: self.request,
                        providers: self.providers,
                        position: self.position + 1,
                    };
                    assert(call@.pending =~= pending.drop_first());
                    assert(call@.pending =~= pending.skip(1));
                    SequentialStep::Ask(call)
                } else {
                    SequentialStep::Done(Err(error))
                }
            },
        }
    }
}

/// A sequential call asks the providers in their order and each at most once,
/// sends all of them the same request, and asks none after one that answered.
/// The outcome is the reply of the provider that was asked last: the first
/// answer, a value or a JSON-RPC error, if any provider has one to give, and
/// else the error of the last provider.
pub proof fn law_sequential_call<I, O, H>(
    call: SequentialView<I>,
    replies: Seq<Result<O, RpcError<H>>>,
)
    requires
        0 < call.pending.len() == replies.len(),
    ensures
        ({
            let (asked, outcome) = call.run(replies);
            &&& 1 <= asked.len() <= replies.len()
            &&& forall|i: int|
                0 <= i < asked.len() ==> #[trigger] asked[i] == (call.pending[i], call.request)
            &&& forall|i: int| 0 <= i < asked.len() - 1 ==> !answers(#[trigger] replies[i])
            &&& outcome == replies[asked.len() - 1]
            &&& !answers(outcome) ==> asked.len() == replies.len()
            &&& answers(outcome) <==> exists|i: int|
                0 <= i < replies.len() && answers(#[trigger] replies[i])
        }),
    decreases replies.len(),
{
    if let SequentialStepView::Ask(next) = call.after(replies[0]) {
        let rest = replies.drop_first();
        law_sequential_call(next, rest);
        let (asked, outcome) = call.run(replies);
        let (asked_later, _) = next.run(rest);
        assert(asked =~= seq![(call.pending[0], call.request)] + asked_later);
        assert forall|i: int| 0 <= i < asked.len() implies #[trigger] asked[i] == (
            call.pending[i],
            call.request,
        ) by {
            if i > 0 {
                assert(asked[i] == asked_later[i - 1]);
            }
        }
        assert forall|i: int| 0 <= i < asked.len() - 1 implies !answers(#[trigger] replies[i]) by {
            if i > 0 {
                assert(rest[i - 1] == replies[i]);
            }
        }
        if exists|i: int| 0 <= i < replies.len() && answers(#[trigger] replies[i]) {
            let i = choose|i: int| 0 <= i < replies.len() && answers(#[trigger] replies[i]);
            assert(answers(rest[i - 1]));
        }
        if answers(outcome) {
            assert(answers(replies[asked.len() - 1]));
        }
    }
}

/// A call that goes to all providers at once.
#[derive(Clone, Debug, PartialEq, Eq)]
pub struct ParallelCall<I> {
    /// What each of them is sent.
    pub request: RpcRequest<I>,
    /// The providers, in the order in which their results are collected.
    pub providers: Vec<RpcService>,
}

/// Each provider with its result, as far as there are both.
pub open spec fn by_provider<R>(providers: Seq<RpcService>, results: Seq<R>) -> Seq<
    (RpcService, R),
> {
    let n = if providers.len() < results.len() {
        providers.len()
    } else {
        results.len()
    };
    Seq::new(n, |i: int| (providers[i], results[i]))
}

impl<I> ParallelCall<I> {
    /// Attributes `results`, which are in the order of the providers, to the
    /// providers.
    pub fn collect<R>(&self, results: Vec<R>) -> (collected: Vec<(RpcService, R)>)
        ensures
            collected@ == by_provider(self.providers@, results@),
            collected@.len() <= self.providers@.len(),
            collected@.len() <= results@.len(),
            collected@.len() == self.providers@.len() || collected@.len() == results@.len(),
            forall|i: int|
                0 <= i < collected@.len() ==> #[trigger] collected@[i] == (
                    self.providers@[i],
                    results@[i],
                ),
    {
        let mut collected: Vec<(RpcService, R)> = Vec::new();
        let ghost all = results@;
        for result in it: results.into_iter()
            invariant
                it.seq() == all,
                collected@ =~= by_provider(self.providers@, all.take(it.index())),
        {
            let at: usize = collected.len();
            if at < self.providers.len() {
                collected.push((self.providers[at], result));
            }
        }
        assert(all.take(all.len() as int) =~= all);
        collected
    }
}

/// With one result for each provider, all results are kept, each with the
/// provider that gave it.
pub proof fn law_collected_results<R>(providers: Seq<RpcService>, results: Seq<R>)
    requires
        providers.len() == results.len(),
    ensures
        by_provider(providers, results).len() == providers.len(),
        by_provider(providers, results).map_values(|entry: (RpcService, R)| entry.0) == providers,
        by_provider(providers, results).map_values(|entry: (RpcService, R)| entry.1) == results,
{
}

/// A parallel call whose results are reduced to one value by equality: they
/// have to be equal.
#[derive(Clone, Debug, PartialEq, Eq)]
pub struct EqualityCall<I>(pub ParallelCall<I>);

/// A parallel call whose results are reduced to one value by a strict majority
/// of the providers, where results count as alike by their oldest block.
#[derive(Clone, Debug, PartialEq, Eq)]
pub struct OldestBlockMajorityCall<I>(pub ParallelCall<I>);

/// A request that calls a method with a size is for that method and expects a
/// response of that size.
pub proof fn law_request<I>(request: RpcRequest<I>, method: Seq<char>, size: int)
    ensures
        request.calls(method, size) <==> request.method@ == method
            && request.response_size_estimate as int == size,
{
}

/// While another provider is left, one that was not reached (the provider
/// itself, the outcall or the format is at fault, whatever the details) is
/// passed over: the next one is asked, with the same request. If it was the
/// last one, its error is the outcome.
pub proof fn law_failed_provider_is_passed_over<I, O, H>(
    call: SequentialView<I>,
    error: RpcError<H>,
)
    requires
        error is ProviderError || error is HttpOutcallError || error is ValidationError,
    ensures
        call.pending.len() >= 2 ==> call.after(Err::<O, RpcError<H>>(error))
            == SequentialStepView::<I, O, H>::Ask(
            SequentialView { request: call.request, pending: call.pending.skip(1) },
        ),
        call.pending.len() == 1 ==> call.after(Err::<O, RpcError<H>>(error))
            == SequentialStepView::<I, O, H>::Done(Err(error)),
{
    if call.pending.len() >= 2 {
        assert(call.pending.skip(1) =~= call.pending.drop_first());
    }
}

/// A value ends a sequential call, and so does a JSON-RPC error. Either is the
/// outcome, whoever is left to ask.
pub proof fn law_answer_ends_the_call<I, O, H>(
    call: SequentialView<I>,
    value: O,
    error: crate::error::JsonRpcError,
)
    ensures
        call.after(Ok::<O, RpcError<H>>(value)) == SequentialStepView::<I, O, H>::Done(Ok(value)),
        call.after(Err::<O, RpcError<H>>(RpcError::JsonRpcError(error)))
            == SequentialStepView::<I, O, H>::Done(Err(RpcError::JsonRpcError(error))),
{
}

/// If the providers before the one at `k` fail to be reached and the one at
/// `k` replies with a value or a JSON-RPC error, then those up to `k` are asked
/// and no others, and that reply is the outcome. If all providers fail to be
/// reached, all are asked, and the error of the last one is the outcome.
pub proof fn law_sequential_outcome<I, O, H>(
    call: SequentialView<I>,
    replies: Seq<Result<O, RpcError<H>>>,
    k: int,
)
    requires
        0 <= k < call.pending.len() == replies.len(),
        forall|i: int|
            0 <= i < k ==> ((#[trigger] replies[i]) matches Err(error) && error !is JsonRpcError),
        k == replies.len() - 1 || replies[k] is Ok || (replies[k] matches Err(error)
            && error is JsonRpcError),
    ensures
        call.run(replies).0.len() == k + 1,
        forall|i: int|
            0 <= i <= k ==> #[trigger] call.run(replies).0[i] == (call.pending[i], call.request),
        call.run(replies).1 == replies[k],
{
    law_sequential_call(call, replies);
    let (asked, outcome) = call.run(replies);
    let last = asked.len() - 1;
    if last < k {
        assert(replies[last] matches Err(error) && error !is JsonRpcError);
        assert(!answers(outcome));
        assert(false);
    }
    if last > k {
        assert(!answers(replies[k]));
        assert(false);
    }
}

/// The collected results are as many as there are providers and results to
/// pair, and each stands with the provider at its own place.
pub proof fn law_collected_in_order<R>(providers: Seq<RpcService>, results: Seq<R>)
    ensures
        by_provider(providers, results).len() <= providers.len(),
        by_provider(providers, results).len() <= results.len(),
        by_provider(providers, results).len() == providers.len() || by_provider(
            providers,
            results,
        ).len() == results.len(),
        forall|i: int|
            0 <= i < by_provider(providers, results).len() ==> #[trigger] by_provider(
                providers,
                results,
            )[i] == (providers[i], results[i]),
{
}

} // verus!
