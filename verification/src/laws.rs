use crate::address::tz4_base58;
use crate::context::{ExecutionContext, Resolved};
use crate::continuation::{
    concluded_as, conclusion, contents_after, outcome_commits, resolution_of, untouched, writes_of,
};
use crate::engine::{HandlerOutcome, HandlerResult, ModuleEvaluation, Resolution, Value};
use crate::error::Error;
use crate::headers::{has_room, header_key, header_values, names_caller, stamped_with, REFERRER};
use crate::kv::{apply_edits, held, lemma_last_write, Edit};
use crate::ledger::{code_of, Account};
use crate::message::{is_success, Request, Response};
use crate::operation;
use crate::receipt;
use crate::run::{executed, receipt_for, request_of, target_of};
use crate::script::{
    begun_from, initialized_and_run, invoked_with, loaded_and_run, through, Lifecycle, Script,
};
use vstd::prelude::*;

verus! {

/// An invocation whose handler settles with a response of the success class
/// leaves the store with every write of the handler made, in order; any
/// other invocation leaves the store as it was.
pub proof fn lemma_atomicity(
    before: ExecutionContext,
    outcome: HandlerOutcome,
    after: ExecutionContext,
    result: Result<HandlerResult, Error>,
)
    requires
        concluded_as(before, outcome, after, result),
    ensures
        outcome_commits(outcome) <==> (outcome matches HandlerOutcome::Returned { result: handed, .. }
            && handed.value() matches Some(Value::Response(response)) && is_success(
            response.status,
        )),
        outcome_commits(outcome) ==> after.contents() == apply_edits(
            before.contents(),
            writes_of(outcome),
        ),
        !outcome_commits(outcome) ==> after.contents() == before.contents(),
{
}

/// After an invocation that committed, the last write that the handler made
/// to a key is what the store holds under that key.
pub proof fn lemma_committed_write_is_visible(
    before: ExecutionContext,
    outcome: HandlerOutcome,
    after: ExecutionContext,
    result: Result<HandlerResult, Error>,
    at: int,
)
    requires
        concluded_as(before, outcome, after, result),
        outcome_commits(outcome),
        0 <= at < writes_of(outcome).len(),
        forall|j: int|
            at < j < writes_of(outcome).len() ==> writes_of(outcome)[j].key@ != writes_of(
                outcome,
            )[at].key@,
    ensures
        held(after.contents(), writes_of(outcome)[at].key@) == match writes_of(outcome)[at].value {
            Some(value) => Some(value@),
            None => None,
        },
{
    lemma_last_write(before.contents(), writes_of(outcome), writes_of(outcome)[at].key@, at);
}

/// Whatever the handler came to, failure included, an invocation resolves
/// its transaction exactly once: one resolution is added to the record, and
/// no transaction stays open.
pub proof fn lemma_single_resolution(
    before: ExecutionContext,
    outcome: HandlerOutcome,
    after: ExecutionContext,
    result: Result<HandlerResult, Error>,
)
    requires
        concluded_as(before, outcome, after, result),
    ensures
        after.pending() is None,
        after.history().len() == before.history().len() + 1,
        after.history().drop_last() == before.history(),
        after.history().last() == resolution_of(outcome),
        after.history().last() == Resolved::Committed <==> outcome_commits(outcome),
{
    assert(before.history().push(resolution_of(outcome)).drop_last() =~= before.history());
}

/// The handler runs inside the invocation's transaction: it is called on a
/// context whose transaction is begun, open and without writes, over the
/// store and the record as they were; the transaction is resolved only
/// after the handler has reported.
pub proof fn lemma_handler_runs_inside_transaction<H: FnOnce(
    &Script,
    &Request,
    &ExecutionContext,
) -> HandlerOutcome>(
    invoke: H,
    script: Script,
    request: Request,
    before: ExecutionContext,
    after: ExecutionContext,
    result: Result<HandlerResult, Error>,
)
    requires
        invoked_with(invoke, script, request, before, after, result),
    ensures
        exists|seen: Script, during: ExecutionContext, outcome: HandlerOutcome| #[trigger]
            call_ensures(invoke, (&seen, &request, &during), outcome) && seen.state()
                == Lifecycle::Invoked && during.pending() == Some(Seq::<Edit>::empty())
                && during.contents() == before.contents() && during.history() == before.history()
                && after.pending() is None && after.history() == during.history().push(
                resolution_of(outcome),
            ),
{
    let (seen, during, outcome) = choose|
        seen: Script,
        during: ExecutionContext,
        outcome: HandlerOutcome,
    |
        seen.is_same_at(script, Lifecycle::Invoked) && begun_from(before, during) && #[trigger]
        call_ensures(invoke, (&seen, &request, &during), outcome) && concluded_as(
            before,
            outcome,
            after,
            result,
        );
    assert(call_ensures(invoke, (&seen, &request, &during), outcome));
}

/// Running an operation resolves at most one transaction, and leaves none
/// open.
pub proof fn lemma_execute_resolves_once<
    P: FnOnce(&Script) -> bool,
    E: FnOnce(&Script) -> ModuleEvaluation,
    H: FnOnce(&Script, &Request, &ExecutionContext) -> HandlerOutcome,
>(
    parse: P,
    evaluate: E,
    invoke: H,
    accounts: Map<Seq<u8>, Account>,
    source: Seq<u8>,
    run: operation::RunContract,
    operation: Seq<u8>,
    before: ExecutionContext,
    after: ExecutionContext,
    result: Result<receipt::RunContract, Error>,
)
    requires
        before.pending() is None,
        executed(parse, evaluate, invoke, accounts, source, run, operation, before, after, result),
    ensures
        after.pending() is None,
        after.history() == before.history() || exists|how: Resolved|
            after.history() == before.history().push(how),
        result is Ok ==> after.history().len() == before.history().len() + 1,
{
    let target = target_of(run.uri@)->Ok_0;
    if target_of(run.uri@) is Ok && !names_caller(request_of(run)) && exists|
        request: Request,
        inner: Result<HandlerResult, Error>,
    |
        stamped_with(request_of(run), source, request) && #[trigger] loaded_and_run(
            parse,
            evaluate,
            invoke,
            accounts,
            target,
            operation,
            request,
            before,
            after,
            inner,
        ) && result == receipt_for(inner) {
        let (request, inner) = choose|request: Request, inner: Result<HandlerResult, Error>|
            stamped_with(request_of(run), source, request) && #[trigger] loaded_and_run(
                parse,
                evaluate,
                invoke,
                accounts,
                target,
                operation,
                request,
                before,
                after,
                inner,
            ) && result == receipt_for(inner);
        lemma_loaded_and_run_resolves_once(
            parse,
            evaluate,
            invoke,
            accounts,
            target,
            operation,
            request,
            before,
            after,
            inner,
        );
    }
}

/// Loading, initializing and running a function resolves at most one
/// transaction, exactly one where it hands a result on, and leaves none
/// open.
pub proof fn lemma_loaded_and_run_resolves_once<
    P: FnOnce(&Script) -> bool,
    E: FnOnce(&Script) -> ModuleEvaluation,
    H: FnOnce(&Script, &Request, &ExecutionContext) -> HandlerOutcome,
>(
    parse: P,
    evaluate: E,
    invoke: H,
    accounts: Map<Seq<u8>, Account>,
    address: Seq<u8>,
    operation: Seq<u8>,
    request: Request,
    before: ExecutionContext,
    after: ExecutionContext,
    result: Result<HandlerResult, Error>,
)
    requires
        before.pending() is None,
        loaded_and_run(
            parse,
            evaluate,
            invoke,
            accounts,
            address,
            operation,
            request,
            before,
            after,
            result,
        ),
    ensures
        after.pending() is None,
        after.history() == before.history() || exists|how: Resolved|
            after.history() == before.history().push(how),
        result is Ok ==> after.history().len() == before.history().len() + 1,
{
    match code_of(accounts, address) {
        None => {},
        Some(code) => {
            let (fresh, accepted) = choose|fresh: Script, accepted: bool|
                fresh.is_fresh(code@) && #[trigger] call_ensures(parse, (&fresh,), accepted)
                    && if !accepted {
                    result == Err::<HandlerResult, Error>(Error::ScriptEvaluationFailure)
                        && untouched(before, after)
                } else {
                    initialized_and_run(
                        evaluate,
                        invoke,
                        code@,
                        address,
                        operation,
                        request,
                        before,
                        after,
                        result,
                    )
                };
            if accepted {
                let (script, evaluation) = choose|script: Script, evaluation: ModuleEvaluation|
                    script.is_initialized_for(code@, address, operation) && #[trigger] call_ensures(
                        evaluate,
                        (&script,),
                        evaluation,
                    ) && if !evaluation.completed() {
                        result == Err::<HandlerResult, Error>(Error::ScriptEvaluationFailure)
                            && untouched(before, after)
                    } else {
                        exists|inner: Result<HandlerResult, Error>| #[trigger]
                            invoked_with(invoke, script, request, before, after, inner) && result
                                == through(evaluation, inner)
                    };
                if evaluation.completed() {
                    let inner = choose|inner: Result<HandlerResult, Error>| #[trigger]
                        invoked_with(invoke, script, request, before, after, inner) && result
                            == through(evaluation, inner);
                    let (seen, during, outcome) = choose|
                        seen: Script,
                        during: ExecutionContext,
                        outcome: HandlerOutcome,
                    |
                        seen.is_same_at(script, Lifecycle::Invoked) && begun_from(before, during)
                            && #[trigger] call_ensures(invoke, (&seen, &request, &during), outcome)
                            && concluded_as(before, outcome, after, inner);
                    assert(after.history() == before.history().push(resolution_of(outcome)));
                }
            }
        },
    }
}

/// A request that already names a caller is refused as a spoofing attempt,
/// and the context is left as it was: nothing is begun, written or resolved.
pub proof fn lemma_spoofed_request_is_refused<
    P: FnOnce(&Script) -> bool,
    E: FnOnce(&Script) -> ModuleEvaluation,
    H: FnOnce(&Script, &Request, &ExecutionContext) -> HandlerOutcome,
>(
    parse: P,
    evaluate: E,
    invoke: H,
    accounts: Map<Seq<u8>, Account>,
    source: Seq<u8>,
    run: operation::RunContract,
    operation: Seq<u8>,
    before: ExecutionContext,
    after: ExecutionContext,
    result: Result<receipt::RunContract, Error>,
)
    requires
        executed(parse, evaluate, invoke, accounts, source, run, operation, before, after, result),
        target_of(run.uri@) is Ok,
        names_caller(request_of(run)),
    ensures
        result == Err::<receipt::RunContract, Error>(Error::IdentitySpoofAttempt),
        untouched(before, after),
{
}

/// A request stamped with a caller names that caller, and no other: the
/// header holds the caller's address as text.
pub proof fn lemma_stamped_request_names_caller(before: Request, caller: Seq<u8>, after: Request)
    requires
        stamped_with(before, caller, after),
    ensures
        names_caller(after),
        header_values(after.headers)[header_key(REFERRER@)] == seq![
            vstd::utf8::encode_utf8(tz4_base58(caller)),
        ],
{
}

/// A request that names no caller is handed on stamped with the true
/// caller: whatever was loaded and run saw the caller's address under the
/// identity header, and the rest of the request as it arrived.
pub proof fn lemma_clean_request_is_stamped<
    P: FnOnce(&Script) -> bool,
    E: FnOnce(&Script) -> ModuleEvaluation,
    H: FnOnce(&Script, &Request, &ExecutionContext) -> HandlerOutcome,
>(
    parse: P,
    evaluate: E,
    invoke: H,
    accounts: Map<Seq<u8>, Account>,
    source: Seq<u8>,
    run: operation::RunContract,
    operation: Seq<u8>,
    before: ExecutionContext,
    after: ExecutionContext,
    result: Result<receipt::RunContract, Error>,
)
    requires
        executed(parse, evaluate, invoke, accounts, source, run, operation, before, after, result),
        target_of(run.uri@) is Ok,
        !names_caller(request_of(run)),
        has_room(run.headers),
    ensures
        exists|request: Request, inner: Result<HandlerResult, Error>| #[trigger]
            loaded_and_run(
                parse,
                evaluate,
                invoke,
                accounts,
                target_of(run.uri@)->Ok_0,
                operation,
                request,
                before,
                after,
                inner,
            ) && stamped_with(request_of(run), source, request) && names_caller(request)
                && header_values(request.headers)[header_key(REFERRER@)] == seq![
                vstd::utf8::encode_utf8(tz4_base58(source)),
            ],
{
    let target = target_of(run.uri@)->Ok_0;
    let (request, inner) = choose|request: Request, inner: Result<HandlerResult, Error>|
        stamped_with(request_of(run), source, request) && #[trigger] loaded_and_run(
            parse,
            evaluate,
            invoke,
            accounts,
            target,
            operation,
            request,
            before,
            after,
            inner,
        ) && result == receipt_for(inner);
    lemma_stamped_request_names_caller(request_of(run), source, request);
}

/// A response handed back directly and a pending value that resolves to the
/// same response come to the same: the same resolution of the transaction,
/// the same contents of the store, the same receipt.
pub proof fn lemma_continuation_transparency(
    edits: Vec<Edit>,
    response: Response,
    evaluation: ModuleEvaluation,
)
    ensures
        ({
            let direct = HandlerOutcome::Returned {
                edits,
                result: HandlerResult::Ready(Value::Response(response)),
            };
            let deferred = HandlerOutcome::Returned {
                edits,
                result: HandlerResult::Pending(Resolution::Fulfilled(Value::Response(response))),
            };
            &&& receipt_for(conclusion(direct)) == receipt_for(conclusion(deferred))
            &&& receipt_for(through(evaluation, conclusion(direct))) == receipt_for(
                conclusion(direct),
            )
            &&& receipt_for(conclusion(direct)) == Ok::<receipt::RunContract, Error>(
                receipt::RunContract {
                    body: response.body,
                    status_code: response.status,
                    headers: response.headers,
                },
            )
            &&& resolution_of(direct) == resolution_of(deferred)
            &&& forall|contents: crate::kv::Contents|
                contents_after(contents, direct) == contents_after(contents, deferred)
        }),
{
}

/// Running an operation addressed to an address that holds no code fails
/// with `InvalidAddress` and leaves the context as it was.
pub proof fn lemma_missing_code<
    P: FnOnce(&Script) -> bool,
    E: FnOnce(&Script) -> ModuleEvaluation,
    H: FnOnce(&Script, &Request, &ExecutionContext) -> HandlerOutcome,
>(
    parse: P,
    evaluate: E,
    invoke: H,
    accounts: Map<Seq<u8>, Account>,
    source: Seq<u8>,
    run: operation::RunContract,
    operation: Seq<u8>,
    before: ExecutionContext,
    after: ExecutionContext,
    result: Result<receipt::RunContract, Error>,
)
    requires
        executed(parse, evaluate, invoke, accounts, source, run, operation, before, after, result),
        target_of(run.uri@) matches Ok(target) && code_of(accounts, target) is None,
        !names_caller(request_of(run)),
        has_room(run.headers),
    ensures
        result == Err::<receipt::RunContract, Error>(Error::InvalidAddress),
        untouched(before, after),
{
}

} // verus!
