use crate::address::{tz4_base58, tz4_base58_decode, Address, HASH_SIZE};
use crate::context::ExecutionContext;
use crate::continuation::untouched;
use crate::engine::{HandlerOutcome, HandlerResult, ModuleEvaluation, Value};
use crate::error::Error;
use crate::headers::{has_room, names_caller, stamped_with, test_and_set_referrer};
use crate::ledger::{Account, Ledger};
use crate::message::{host_of_uri, uri_host, Request};
use crate::operation;
use crate::receipt;
use crate::script::{loaded_and_run, register_web_apis, OperationHash, Realm, Script};
use vstd::prelude::*;

verus! {

/// The address that a request to `uri` is for, or why it is for none.
pub open spec fn target_of(uri: Seq<char>) -> Result<Seq<u8>, Error> {
    match host_of_uri(uri) {
        None => Err(Error::MissingTarget),
        Some(host) => match tz4_base58_decode(host) {
            None => Err(Error::MalformedAddress),
            Some(address) => Ok(address),
        },
    }
}

/// The request that an operation describes.
pub open spec fn request_of(run: operation::RunContract) -> Request {
    Request { method: run.method, uri: run.uri, headers: run.headers, body: run.body }
}

/// The receipt for what an invocation handed on: status, headers and body of
/// the response that it stands for.
pub open spec fn receipt_for(inner: Result<HandlerResult, Error>) -> Result<
    receipt::RunContract,
    Error,
> {
    match inner {
        Err(e) => Err(e),
        Ok(handed) => match handed.value() {
            None => Err(Error::ScriptEvaluationFailure),
            Some(Value::Other) => Err(Error::ResponseConversionFailure),
            Some(Value::Response(response)) => Ok(
                receipt::RunContract {
                    body: response.body,
                    status_code: response.status,
                    headers: response.headers,
                },
            ),
        },
    }
}

/// What running an operation comes to. A request for no address and one
/// that names a caller already fail before anything is loaded and leave the
/// context as it was; so does one whose header map refuses the caller's
/// header, which no map with room does. Otherwise the function at the target was loaded,
/// initialized and run on the request stamped with the caller, and the
/// receipt is read from what that handed on.
pub open spec fn executed<
    P: FnOnce(&Script) -> bool,
    E: FnOnce(&Script) -> ModuleEvaluation,
    H: FnOnce(&Script, &Request, &ExecutionContext) -> HandlerOutcome,
>(
    parse: P,
    evaluate: E,
    invoke: H,
    accounts: Map<Seq<u8>, Account>,
    source: Seq<u8>,
    run: operation::RunContract,
    operation: Seq<u8>,
    before: ExecutionContext,
    after: ExecutionContext,
    result: Result<receipt::RunContract, Error>,
) -> bool {
    match target_of(run.uri@) {
        Err(e) => result == Err::<receipt::RunContract, Error>(e) && untouched(before, after),
        Ok(target) => if names_caller(request_of(run)) {
            result == Err::<receipt::RunContract, Error>(Error::IdentitySpoofAttempt)
                && untouched(before, after)
        } else {
            ||| exists|request: Request, inner: Result<HandlerResult, Error>|
                stamped_with(request_of(run), source, request) && #[trigger] loaded_and_run(
                    parse,
                    evaluate,
                    invoke,
                    accounts,
                    target,
                    operation,
                    request,
                    before,
                    after,
                    inner,
                ) && result == receipt_for(inner)
            ||| result == Err::<receipt::RunContract, Error>(Error::HeadersFull) && untouched(
                before,
                after,
            ) && !has_room(run.headers)
        },
    }
}

/// Whether a URI whose host is the text of a digest is for that digest.
pub open spec fn targets_by_text(uri: Seq<char>) -> bool {
    forall|digest: Seq<u8>|
        digest.len() == HASH_SIZE && host_of_uri(uri) == Some(tz4_base58(digest)) ==> target_of(uri)
            == Ok::<Seq<u8>, Error>(digest)
}

/// Builds the request that an operation describes, in a realm that offers
/// the request and response primitives.
fn create_http_request(
    realm: &Realm,
    uri: String,
    method: String,
    headers: http::HeaderMap<http::HeaderValue>,
    body: Option<Vec<u8>>,
) -> (request: Request)
    requires
        exists|i: int| 0 <= i < realm@.len() && realm@[i] is Http,
    ensures
        request == (Request { method, uri, headers, body }),
{
    Request { method, uri, headers, body }
}

/// Reads the receipt from what an invocation handed on.
pub fn receipt_from(inner: Result<HandlerResult, Error>) -> (receipt: Result<
    receipt::RunContract,
    Error,
>)
    ensures
        receipt == receipt_for(inner),
{
    match inner {
        Err(e) => Err(e),
        Ok(handed) => match handed.resolve() {
            None => Err(Error::ScriptEvaluationFailure),
            Some(Value::Other) => Err(Error::ResponseConversionFailure),
            Some(Value::Response(response)) => Ok(
                receipt::RunContract {
                    body: response.body,
                    status_code: response.status,
                    headers: response.headers,
                },
            ),
        },
    }
}

/// Runs the function that `run` is addressed to, on behalf of `source`.
pub fn execute<
    P: FnOnce(&Script) -> bool,
    E: FnOnce(&Script) -> ModuleEvaluation,
    H: FnOnce(&Script, &Request, &ExecutionContext) -> HandlerOutcome,
>(
    ledger: &Ledger,
    ctx: &mut ExecutionContext,
    source: &Address,
    run: operation::RunContract,
    operation_hash: &OperationHash,
    parse: P,
    evaluate: E,
    invoke: H,
) -> (result: Result<receipt::RunContract, Error>)
    requires
        old(ctx).pending() is None,
        forall|script: &Script| call_requires(parse, (script,)),
        forall|script: &Script| call_requires(evaluate, (script,)),
        forall|script: &Script, request: &Request, during: &ExecutionContext|
            call_requires(invoke, (script, request, during)),
    ensures
        executed(
            parse,
            evaluate,
            invoke,
            ledger@,
            source@,
            run,
            operation_hash@,
            *old(ctx),
            *final(ctx),
            result,
        ),
        targets_by_text(run.uri@),
{
    let ghost described = request_of(run);
    let mut realm = Realm::new();
    register_web_apis(&mut realm);
    assert(realm@.subrange(0, 4)[2] is Http);
    let host = match uri_host(run.uri.as_str()) {
        Some(host) => host,
        None => {
            return Err(Error::MissingTarget);
        },
    };
    let address = match Address::from_base58(host.as_str()) {
        Ok(address) => address,
        Err(e) => {
            return Err(e);
        },
    };
    let mut request = create_http_request(&realm, run.uri, run.method, run.headers, run.body);
    match test_and_set_referrer(&mut request, source) {
        Ok(()) => {},
        Err(e) => {
            return Err(e);
        },
    }
    let inner = Script::load_init_run(
        ledger,
        &address,
        &request,
        operation_hash,
        ctx,
        parse,
        evaluate,
        invoke,
    );
    let ghost handed = inner;
    let result = receipt_from(inner);
    proof {
        assert(target_of(run.uri@)->Ok_0 == address@);
        assert(stamped_with(described, source@, request) && loaded_and_run(
            parse,
            evaluate,
            invoke,
            ledger@,
            address@,
            operation_hash@,
            request,
            *old(ctx),
            *ctx,
            handed,
        ) && result == receipt_for(handed));
    }
    result
}

} // verus!
