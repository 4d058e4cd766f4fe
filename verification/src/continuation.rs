use crate::context::{ExecutionContext, Resolved};
use crate::engine::{HandlerOutcome, HandlerResult, Resolution, Value};
use crate::error::Error;
use crate::kv::{apply_edits, Contents, Edit};
use crate::message::is_success;
use vstd::prelude::*;

verus! {

/// Whether settling with `value` commits: it is a response of the success
/// class.
pub open spec fn commits(value: Value) -> bool {
    value matches Value::Response(response) && is_success(response.status)
}

/// How a transaction is resolved when its invocation settles with `value`.
pub open spec fn resolution_for(value: Value) -> Resolved {
    if commits(value) {
        Resolved::Committed
    } else {
        Resolved::RolledBack
    }
}

/// The context `before`, its open transaction resolved as `how`.
pub open spec fn resolved_as(
    before: ExecutionContext,
    how: Resolved,
    after: ExecutionContext,
) -> bool {
    &&& after.pending() is None
    &&& after.history() == before.history().push(how)
    &&& after.contents() == match how {
        Resolved::Committed => apply_edits(before.contents(), before.pending()->0),
        Resolved::RolledBack => before.contents(),
    }
}

/// A context that nothing was done to.
pub open spec fn untouched(before: ExecutionContext, after: ExecutionContext) -> bool {
    &&& after.pending() == before.pending()
    &&& after.history() == before.history()
    &&& after.contents() == before.contents()
}

/// Resolves the open transaction for an invocation that settled with
/// `value`: committed for a response of the success class, rolled back for
/// anything else. A value that is no response is reported.
pub fn settle(value: &Value, ctx: &mut ExecutionContext) -> (settled: Result<(), Error>)
    requires
        old(ctx).pending() is Some,
    ensures
        resolved_as(*old(ctx), resolution_for(*value), *final(ctx)),
        settled == (if *value is Other {
            Err::<(), Error>(Error::ResponseConversionFailure)
        } else {
            Ok::<(), Error>(())
        }),
{
    match value {
        Value::Response(response) => {
            if response.ok() {
                ctx.commit();
            } else {
                ctx.rollback();
            }
            Ok(())
        },
        Value::Other => {
            ctx.rollback();
            Err(Error::ResponseConversionFailure)
        },
    }
}

/// What the bridge hands on after `on_value` reported `settled`: the result
/// unchanged, or the failure of `on_value`.
pub open spec fn handed_after(result: HandlerResult, settled: Result<(), Error>) -> Result<
    HandlerResult,
    Error,
> {
    match settled {
        Ok(()) => Ok(result),
        Err(e) => Err(e),
    }
}

/// Bridges a handler's result to `on_value`, which settles what the
/// invocation left open: called at once on a ready value, on fulfilment on
/// a pending one, never on a rejected one, and never more than once. The
/// result is handed on unchanged.
pub fn on_success<F: FnOnce(&Value, &mut ExecutionContext) -> Result<(), Error>>(
    result: HandlerResult,
    on_value: F,
    ctx: &mut ExecutionContext,
) -> (handed_on: Result<HandlerResult, Error>)
    requires
        old(ctx).pending() is Some,
        forall|value: &Value, during: &mut ExecutionContext|
            (*during).pending() is Some ==> call_requires(on_value, (value, during)),
    ensures
        result.value() matches Some(value) ==> exists|
            during: &mut ExecutionContext,
            settled: Result<(), Error>,
        |
            *during == *old(ctx) && *final(during) == *final(ctx) && #[trigger] call_ensures(
                on_value,
                (&value, during),
                settled,
            ) && handed_on == handed_after(result, settled),
        result.value() is None ==> untouched(*old(ctx), *final(ctx)) && handed_on == Ok::<
            HandlerResult,
            Error,
        >(result),
{
    match &result {
        HandlerResult::Ready(value) => {
            match on_value(value, ctx) {
                Ok(()) => Ok(result),
                Err(e) => Err(e),
            }
        },
        HandlerResult::Pending(Resolution::Fulfilled(value)) => {
            match on_value(value, ctx) {
                Ok(()) => Ok(result),
                Err(e) => Err(e),
            }
        },
        HandlerResult::Pending(Resolution::Rejected) => Ok(result),
    }
}

/// What an invocation comes to, given what the engine reported of the
/// handler: the result handed on, or the failure.
pub open spec fn conclusion(outcome: HandlerOutcome) -> Result<HandlerResult, Error> {
    match outcome {
        HandlerOutcome::ExportMissing => Err(Error::HandlerExportMissing),
        HandlerOutcome::ExportNotCallable => Err(Error::HandlerNotCallable),
        HandlerOutcome::Threw { .. } => Err(Error::ScriptEvaluationFailure),
        HandlerOutcome::Returned { result, .. } => match result.value() {
            None => Err(Error::ScriptEvaluationFailure),
            Some(Value::Other) => Err(Error::ResponseConversionFailure),
            Some(Value::Response(_)) => Ok(result),
        },
    }
}

/// Whether an invocation with this outcome commits its writes.
pub open spec fn outcome_commits(outcome: HandlerOutcome) -> bool {
    outcome matches HandlerOutcome::Returned { result, .. } && result.value() matches Some(value)
        && commits(value)
}

/// The writes that the handler made.
pub open spec fn writes_of(outcome: HandlerOutcome) -> Seq<Edit> {
    match outcome {
        HandlerOutcome::Threw { edits } => edits@,
        HandlerOutcome::Returned { edits, .. } => edits@,
        _ => Seq::empty(),
    }
}

/// What the store holds after an invocation with this outcome, begun over
/// `contents`.
pub open spec fn contents_after(contents: Contents, outcome: HandlerOutcome) -> Contents {
    if outcome_commits(outcome) {
        apply_edits(contents, writes_of(outcome))
    } else {
        contents
    }
}

/// How the transaction of an invocation with this outcome is resolved.
pub open spec fn resolution_of(outcome: HandlerOutcome) -> Resolved {
    if outcome_commits(outcome) {
        Resolved::Committed
    } else {
        Resolved::RolledBack
    }
}

/// The context `before` and the result of an invocation that the engine
/// reported `outcome` of: the transaction is resolved, once, and the store
/// holds the handler's writes exactly where it committed.
pub open spec fn concluded_as(
    before: ExecutionContext,
    outcome: HandlerOutcome,
    after: ExecutionContext,
    result: Result<HandlerResult, Error>,
) -> bool {
    &&& result == conclusion(outcome)
    &&& after.pending() is None
    &&& after.contents() == contents_after(before.contents(), outcome)
    &&& after.history() == before.history().push(resolution_of(outcome))
}

/// Concludes an invocation whose transaction is open and has made no write
/// yet: records the handler's writes and resolves the transaction, committed
/// where the handler settled with a response of the success class, rolled
/// back on every other path.
pub fn conclude(outcome: HandlerOutcome, ctx: &mut ExecutionContext) -> (concluded: Result<
    HandlerResult,
    Error,
>)
    requires
        old(ctx).pending() == Some(Seq::<Edit>::empty()),
    ensures
        concluded_as(*old(ctx), outcome, *final(ctx), concluded),
{
    match outcome {
        HandlerOutcome::ExportMissing => {
            ctx.rollback();
            Err(Error::HandlerExportMissing)
        },
        HandlerOutcome::ExportNotCallable => {
            ctx.rollback();
            Err(Error::HandlerNotCallable)
        },
        HandlerOutcome::Threw { edits } => {
            ctx.write_all(edits);
            ctx.rollback();
            Err(Error::ScriptEvaluationFailure)
        },
        HandlerOutcome::Returned { edits, result } => {
            assert(Seq::<Edit>::empty() + edits@ =~= edits@);
            ctx.write_all(edits);
            match on_success(result, settle, ctx) {
                Err(e) => Err(e),
                Ok(result) => match &result {
                    HandlerResult::Pending(Resolution::Rejected) => {
                        ctx.rollback();
                        Err(Error::ScriptEvaluationFailure)
                    },
                    _ => Ok(result),
                },
            }
        },
    }
}

} // verus!
