use crate::error::Error;
use crate::kv::Edit;
use crate::message::Response;
use vstd::prelude::*;

verus! {

/// A value that a script settled with, as far as the pipeline reads it.
#[derive(Debug)]
pub enum Value {
    /// A response.
    Response(Response),
    /// Any value that is no response.
    Other,
}

/// How a pending value ended once the scheduler had drained.
#[derive(Debug)]
pub enum Resolution {
    Fulfilled(Value),
    Rejected,
}

/// What a handler hands back: a value, or a pending value together with how
/// it ended.
#[derive(Debug)]
pub enum HandlerResult {
    Ready(Value),
    Pending(Resolution),
}

/// What the script engine reports of the top-level evaluation of a module.
#[derive(Clone, Copy, Debug, PartialEq, Eq, Structural)]
pub enum ModuleEvaluation {
    /// Evaluation could not start.
    Failed,
    /// Evaluation completed at once.
    Evaluated,
    /// Evaluation suspended, and later completed or failed.
    Pending { fulfilled: bool },
}

/// What the script engine reports of one call of a module's handler.
#[derive(Debug)]
pub enum HandlerOutcome {
    /// The module has no `default` export.
    ExportMissing,
    /// The module's `default` export cannot be called.
    ExportNotCallable,
    /// The handler raised a failure, after making the writes `edits`.
    Threw { edits: Vec<Edit> },
    /// The handler handed `result` back, having made the writes `edits` by
    /// the time the result was settled.
    Returned { edits: Vec<Edit>, result: HandlerResult },
}

impl ModuleEvaluation {
    /// What starting the evaluation comes to: the evaluation, pending or
    /// not, unless it could not start.
    pub open spec fn started(self) -> Result<ModuleEvaluation, Error> {
        if self is Failed {
            Err(Error::ScriptEvaluationFailure)
        } else {
            Ok(self)
        }
    }

    /// Tells an evaluation that could not start from one that did.
    pub fn check(self) -> (started: Result<ModuleEvaluation, Error>)
        ensures
            started == self.started(),
    {
        match self {
            ModuleEvaluation::Failed => Err(Error::ScriptEvaluationFailure),
            other => Ok(other),
        }
    }

    /// Whether the evaluation ran to its end, at once or after suspending.
    pub fn is_complete(self) -> (complete: bool)
        ensures
            complete == self.completed(),
    {
        match self {
            ModuleEvaluation::Failed => false,
            ModuleEvaluation::Evaluated => true,
            ModuleEvaluation::Pending { fulfilled } => fulfilled,
        }
    }

    /// Whether the module's top level ran to completion.
    pub open spec fn completed(self) -> bool {
        match self {
            ModuleEvaluation::Failed => false,
            ModuleEvaluation::Evaluated => true,
            ModuleEvaluation::Pending { fulfilled } => fulfilled,
        }
    }
}

impl HandlerResult {
    /// The value that the result stands for, unless it was rejected.
    pub open spec fn value(self) -> Option<Value> {
        match self {
            HandlerResult::Ready(value) => Some(value),
            HandlerResult::Pending(Resolution::Fulfilled(value)) => Some(value),
            HandlerResult::Pending(Resolution::Rejected) => None,
        }
    }

    /// The result as a pending value: one that is pending stays as it is.
    pub open spec fn chained(self) -> HandlerResult {
        match self {
            HandlerResult::Ready(value) => HandlerResult::Pending(Resolution::Fulfilled(value)),
            pending => pending,
        }
    }

    /// Hands the result on through a continuation, which makes a pending
    /// value of it and leaves what it stands for as it is.
    pub fn defer(self) -> (result: HandlerResult)
        ensures
            result == self.chained(),
            result.value() == self.value(),
    {
        match self {
            HandlerResult::Ready(value) => HandlerResult::Pending(Resolution::Fulfilled(value)),
            pending => pending,
        }
    }

    /// Waits for the result: the value it stands for, or nothing where it
    /// was rejected.
    pub fn resolve(self) -> (value: Option<Value>)
        ensures
            value == self.value(),
    {
        match self {
            HandlerResult::Ready(value) => Some(value),
            HandlerResult::Pending(Resolution::Fulfilled(value)) => Some(value),
            HandlerResult::Pending(Resolution::Rejected) => None,
        }
    }
}

/// What is reported of a handler that cannot be called: that the module
/// has no `default` export, or that its export is no function. Nothing for
/// an export that can be called.
pub open spec fn refusal_for(is_undefined: bool, is_callable: bool) -> Option<HandlerOutcome> {
    if is_undefined {
        Some(HandlerOutcome::ExportMissing)
    } else if !is_callable {
        Some(HandlerOutcome::ExportNotCallable)
    } else {
        None
    }
}

/// Decides, from what the `default` export of a module is, whether and how
/// the call of the handler is refused.
pub fn export_outcome(is_undefined: bool, is_callable: bool) -> (refused: Option<HandlerOutcome>)
    ensures
        refused == refusal_for(is_undefined, is_callable),
{
    if is_undefined {
        Some(HandlerOutcome::ExportMissing)
    } else if !is_callable {
        Some(HandlerOutcome::ExportNotCallable)
    } else {
        None
    }
}

} // verus!
