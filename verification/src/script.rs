use crate::address::{derived, Address};
use crate::context::ExecutionContext;
use crate::continuation::{conclude, concluded_as, untouched};
use crate::engine::{HandlerOutcome, HandlerResult, ModuleEvaluation};
use crate::error::Error;
use crate::kv::Edit;
use crate::ledger::{code_of, nonce_of, Account, Amount, Ledger};
use crate::message::Request;
use vstd::prelude::*;

verus! {

/// Names one operation of the outer protocol.
pub type OperationHash = Vec<u8>;

/// One capability that a realm offers to the code that runs in it.
#[derive(Debug)]
pub enum Capability {
    Url,
    UrlPattern,
    Http,
    Encoding,
    /// Logging, attributed to a function and an operation.
    Console { contract_address: Address, operation_hash: OperationHash },
    /// Key-value storage of a function.
    Kv { contract_address: Address },
    /// Ledger reads and transfers on behalf of a function.
    Ledger { contract_address: Address },
    /// Calls to other functions on behalf of a function, within an operation.
    Contract { contract_address: Address, operation_hash: OperationHash },
}

/// The capabilities that need no function to be bound to.
pub open spec fn is_web_table(table: Seq<Capability>) -> bool {
    &&& table.len() == 4
    &&& table[0] is Url
    &&& table[1] is UrlPattern
    &&& table[2] is Http
    &&& table[3] is Encoding
}

/// The capabilities bound to the function at `address` within `operation`.
pub open spec fn is_scoped_table(
    table: Seq<Capability>,
    address: Seq<u8>,
    operation: Seq<u8>,
) -> bool {
    &&& table.len() == 4
    &&& table[0] matches Capability::Console { contract_address, operation_hash }
        && contract_address@ == address && operation_hash@ == operation
    &&& table[1] matches Capability::Kv { contract_address } && contract_address@ == address
    &&& table[2] matches Capability::Ledger { contract_address } && contract_address@ == address
    &&& table[3] matches Capability::Contract { contract_address, operation_hash }
        && contract_address@ == address && operation_hash@ == operation
}

/// An isolated context for code to run in, with the capabilities registered
/// into it, in the order of registration.
#[derive(Debug)]
pub struct Realm {
    capabilities: Vec<Capability>,
}

impl View for Realm {
    type V = Seq<Capability>;

    closed spec fn view(&self) -> Seq<Capability> {
        self.capabilities@
    }
}

impl Realm {
    /// A realm that offers nothing yet.
    pub fn new() -> (realm: Realm)
        ensures
            realm@ == Seq::<Capability>::empty(),
    {
        Realm { capabilities: Vec::new() }
    }

    /// Registers one capability.
    pub fn register_api(&mut self, capability: Capability)
        ensures
            final(self)@ == old(self)@.push(capability),
    {
        self.capabilities.push(capability);
    }

    /// What the realm offers.
    pub fn capabilities(&self) -> (table: &Vec<Capability>)
        ensures
            table@ == self@,
    {
        &self.capabilities
    }

    /// Whether the realm offers the request and response primitives.
    pub fn offers_http(&self) -> (offered: bool)
        ensures
            offered == exists|i: int| 0 <= i < self@.len() && self@[i] is Http,
    {
        let mut i: usize = 0;
        while i < self.capabilities.len()
            invariant
                i <= self@.len(),
                forall|j: int| 0 <= j < i ==> !(self@[j] is Http),
            decreases self@.len() - i,
        {
            if let Capability::Http = self.capabilities[i] {
                return true;
            }
            i += 1;
        }
        false
    }
}

/// Registers the capabilities that need no function to be bound to.
pub fn register_web_apis(realm: &mut Realm)
    ensures
        final(realm)@.len() == old(realm)@.len() + 4,
        final(realm)@.subrange(0, old(realm)@.len() as int) == old(realm)@,
        is_web_table(final(realm)@.subrange(old(realm)@.len() as int, final(realm)@.len() as int)),
{
    let ghost before = realm@;
    realm.register_api(Capability::Url);
    realm.register_api(Capability::UrlPattern);
    realm.register_api(Capability::Http);
    realm.register_api(Capability::Encoding);
    assert(realm@.subrange(0, before.len() as int) =~= before);
}

/// Where a function stands in its life.
#[derive(Clone, Copy, Debug, PartialEq, Eq, Structural)]
pub enum Lifecycle {
    /// The code is parsed into a realm of its own.
    Parsed,
    /// The capabilities are registered and the top level has been started.
    Initialized,
    /// The handler has been called.
    Invoked,
    /// The invocation's transaction is resolved.
    Settled,
}

/// A function in memory: code bound to a realm of its own.
#[derive(Debug)]
pub struct Script {
    code: String,
    realm: Realm,
    state: Lifecycle,
}

impl Script {
    /// The source text.
    pub closed spec fn code(&self) -> Seq<char> {
        self.code@
    }

    /// The capabilities registered into the function's realm.
    pub closed spec fn table(&self) -> Seq<Capability> {
        self.realm@
    }

    /// Where the function stands in its life.
    pub closed spec fn state(&self) -> Lifecycle {
        self.state
    }

    /// Whether the function holds `code` in a realm that offers nothing yet,
    /// and nothing else has been done with it.
    pub open spec fn is_fresh(&self, code: Seq<char>) -> bool {
        &&& self.code() == code
        &&& self.table() == Seq::<Capability>::empty()
        &&& self.state() == Lifecycle::Parsed
    }

    /// Whether this is `other`, code and capabilities, at the point `state`
    /// of its life.
    pub open spec fn is_same_at(&self, other: Script, state: Lifecycle) -> bool {
        &&& self.code() == other.code()
        &&& self.table() == other.table()
        &&& self.state() == state
    }

    /// Whether this has the code of `before` and, after the capabilities that
    /// `before` had, those of the function at `address` within `operation`:
    /// first those that need no function, after them those bound to this one.
    pub open spec fn is_equipped_from(
        &self,
        before: Script,
        address: Seq<u8>,
        operation: Seq<u8>,
    ) -> bool {
        let n = before.table().len() as int;
        &&& self.code() == before.code()
        &&& self.table().len() == n + 8
        &&& self.table().subrange(0, n) == before.table()
        &&& is_web_table(self.table().subrange(n, n + 4))
        &&& is_scoped_table(self.table().subrange(n + 4, n + 8), address, operation)
    }

    /// Whether this function holds `code` and was initialized, from fresh, as
    /// the function at `address` within `operation`.
    pub open spec fn is_initialized_for(
        &self,
        code: Seq<char>,
        address: Seq<u8>,
        operation: Seq<u8>,
    ) -> bool {
        &&& self.code() == code
        &&& self.state() == Lifecycle::Initialized
        &&& self.table().len() == 8
        &&& is_web_table(self.table().subrange(0, 4))
        &&& is_scoped_table(self.table().subrange(4, 8), address, operation)
    }

    /// The source text.
    pub fn source(&self) -> (code: &String)
        ensures
            code@ == self.code(),
    {
        &self.code
    }

    /// The function's realm.
    pub fn realm(&self) -> (realm: &Realm)
        ensures
            realm@ == self.table(),
    {
        &self.realm
    }

    /// Where the function stands in its life.
    pub fn lifecycle(&self) -> (state: Lifecycle)
        ensures
            state == self.state(),
    {
        self.state
    }

    /// Binds `src` to a realm of its own and has `parse` parse it there as a
    /// module.
    pub fn parse<P: FnOnce(&Script) -> bool>(src: &str, parse: P) -> (parsed: Result<
        Script,
        Error,
    >)
        requires
            forall|script: &Script| call_requires(parse, (script,)),
        ensures
            parsed_with(parse, src@, parsed),
    {
        let script = Script { code: src.to_owned(), realm: Realm::new(), state: Lifecycle::Parsed };
        let accepted = parse(&script);
        proof {
            assert(script.is_fresh(src@) && call_ensures(parse, (&script,), accepted));
        }
        if accepted {
            Ok(script)
        } else {
            Err(Error::ScriptEvaluationFailure)
        }
    }

    /// Loads the function stored at `address`.
    pub fn load<P: FnOnce(&Script) -> bool>(ledger: &Ledger, address: &Address, parse: P) -> (loaded:
        Result<Script, Error>)
        requires
            forall|script: &Script| call_requires(parse, (script,)),
        ensures
            match code_of(ledger@, address@) {
                None => loaded matches Err(e) && e == Error::InvalidAddress,
                Some(code) => parsed_with(parse, code@, loaded),
            },
    {
        match ledger.contract_code(address) {
            None => Err(Error::InvalidAddress),
            Some(code) => Script::parse(code.as_str(), parse),
        }
    }

    /// Registers the capabilities of the function at `contract_address`.
    fn register_apis(&mut self, contract_address: Address, operation_hash: &OperationHash)
        ensures
            final(self).is_equipped_from(*old(self), contract_address@, operation_hash@),
            final(self).state() == old(self).state(),
    {
        let ghost before = self.realm@;
        register_web_apis(&mut self.realm);
        let ghost web = self.realm@;
        self.realm.register_api(
            Capability::Console {
                contract_address: contract_address.clone(),
                operation_hash: operation_hash.clone(),
            },
        );
        self.realm.register_api(Capability::Kv { contract_address: contract_address.clone() });
        self.realm.register_api(Capability::Ledger { contract_address: contract_address.clone() });
        self.realm.register_api(
            Capability::Contract { contract_address, operation_hash: operation_hash.clone() },
        );
        proof {
            let n = before.len() as int;
            assert(self.realm@.subrange(0, n) =~= web.subrange(0, n));
            assert(self.realm@.subrange(n, n + 4) =~= web.subrange(n, n + 4));
        }
    }

    /// Initializes the function: registers its capabilities and starts the
    /// evaluation of its top level, which `evaluate` performs.
    pub fn init<E: FnOnce(&Script) -> ModuleEvaluation>(
        &mut self,
        contract_address: Address,
        operation_hash: &OperationHash,
        evaluate: E,
    ) -> (started: Result<ModuleEvaluation, Error>)
        requires
            old(self).state() == Lifecycle::Parsed,
            forall|script: &Script| call_requires(evaluate, (script,)),
        ensures
            final(self).state() == Lifecycle::Initialized,
            final(self).is_equipped_from(*old(self), contract_address@, operation_hash@),
            exists|evaluation: ModuleEvaluation| #[trigger]
                call_ensures(evaluate, (&*final(self),), evaluation) && started
                    == evaluation.started(),
    {
        self.register_apis(contract_address, operation_hash);
        self.state = Lifecycle::Initialized;
        let evaluation = evaluate(&*self);
        evaluation.check()
    }

    /// Runs the function on `request`: begins the invocation's transaction,
    /// has `invoke` call the handler while the transaction is open, and
    /// resolves the transaction by what the handler came to.
    pub fn run<H: FnOnce(&Script, &Request, &ExecutionContext) -> HandlerOutcome>(
        &mut self,
        request: &Request,
        ctx: &mut ExecutionContext,
        invoke: H,
    ) -> (result: Result<HandlerResult, Error>)
        requires
            old(self).state() == Lifecycle::Initialized,
            old(ctx).pending() is None,
            forall|script: &Script, request: &Request, during: &ExecutionContext|
                call_requires(invoke, (script, request, during)),
        ensures
            final(self).is_same_at(*old(self), Lifecycle::Settled),
            invoked_with(invoke, *old(self), *request, *old(ctx), *final(ctx), result),
    {
        let ghost before = *ctx;
        ctx.begin();
        self.state = Lifecycle::Invoked;
        let ghost seen = *self;
        let ghost during = *ctx;
        let outcome = invoke(&*self, request, &*ctx);
        let result = conclude(outcome, ctx);
        self.state = Lifecycle::Settled;
        proof {
            assert(seen.is_same_at(*old(self), Lifecycle::Invoked) && begun_from(before, during)
                && call_ensures(invoke, (&seen, request, &during), outcome) && concluded_as(
                before,
                outcome,
                *ctx,
                result,
            ));
        }
        result
    }

    /// Loads the function stored at `address`, initializes it and, once its
    /// top level has run, runs it on `request`. The result is pending where
    /// the top level suspended.
    pub fn load_init_run<
        P: FnOnce(&Script) -> bool,
        E: FnOnce(&Script) -> ModuleEvaluation,
        H: FnOnce(&Script, &Request, &ExecutionContext) -> HandlerOutcome,
    >(
        ledger: &Ledger,
        address: &Address,
        request: &Request,
        operation_hash: &OperationHash,
        ctx: &mut ExecutionContext,
        parse: P,
        evaluate: E,
        invoke: H,
    ) -> (result: Result<HandlerResult, Error>)
        requires
            old(ctx).pending() is None,
            forall|script: &Script| call_requires(parse, (script,)),
            forall|script: &Script| call_requires(evaluate, (script,)),
            forall|script: &Script, request: &Request, during: &ExecutionContext|
                call_requires(invoke, (script, request, during)),
        ensures
            loaded_and_run(
                parse,
                evaluate,
                invoke,
                ledger@,
                address@,
                operation_hash@,
                *request,
                *old(ctx),
                *final(ctx),
                result,
            ),
    {
        let ghost stored = code_of(ledger@, address@);
        let mut script = match Script::load(ledger, address, parse) {
            Ok(script) => script,
            Err(e) => {
                return Err(e);
            },
        };
        let ghost code = script.code();
        let started = script.init(address.clone(), operation_hash, evaluate);
        let ghost initialized = script;
        proof {
            assert(initialized.is_initialized_for(code, address@, operation_hash@));
        }
        let evaluation = match started {
            Ok(evaluation) => evaluation,
            Err(e) => {
                return Err(e);
            },
        };
        if !evaluation.is_complete() {
            return Err(Error::ScriptEvaluationFailure);
        }
        let inner = script.run(request, ctx, invoke);
        let result = match evaluation {
            ModuleEvaluation::Pending { .. } => match inner {
                Ok(handed) => Ok(handed.defer()),
                Err(e) => Err(e),
            },
            _ => inner,
        };
        proof {
            assert(initialized_and_run(
                evaluate,
                invoke,
                code,
                address@,
                operation_hash@,
                *request,
                *old(ctx),
                *ctx,
                result,
            )) by {
                assert(call_ensures(evaluate, (&initialized,), evaluation));
                assert(invoked_with(invoke, initialized, *request, *old(ctx), *ctx, inner)
                    && result == through(evaluation, inner));
            }
        }
        result
    }

    /// Deploys `code` on behalf of `source`: creates, with the credit
    /// `balance`, the account of the address derived from the source, the
    /// code and the source's nonce. The nonce is left as it is.
    pub fn deploy(ledger: &mut Ledger, source: &Address, code: String, balance: Amount) -> (deployed:
        Result<Address, Error>)
        ensures
            deployed_as(*old(ledger), source@, code, balance, *final(ledger), deployed),
    {
        let nonce = ledger.nonce(source);
        let address = Address::derive(source, code.as_str(), nonce);
        match ledger.create(&address, balance, Some(code)) {
            Ok(()) => Ok(address),
            Err(e) => Err(e),
        }
    }
}

/// What parsing `code` comes to: `parse` was called on a function that holds
/// the code in a realm that offers nothing yet, and that function is handed
/// back where the parser accepted it.
pub open spec fn parsed_with<P: FnOnce(&Script) -> bool>(
    parse: P,
    code: Seq<char>,
    parsed: Result<Script, Error>,
) -> bool {
    exists|script: Script, accepted: bool|
        script.is_fresh(code) && #[trigger] call_ensures(parse, (&script,), accepted) && parsed
            == (if accepted {
            Ok::<Script, Error>(script)
        } else {
            Err::<Script, Error>(Error::ScriptEvaluationFailure)
        })
}

/// A context in which a transaction has been begun from `before` and has
/// made no write yet.
pub open spec fn begun_from(before: ExecutionContext, during: ExecutionContext) -> bool {
    &&& during.pending() == Some(Seq::<Edit>::empty())
    &&& during.contents() == before.contents()
    &&& during.history() == before.history()
}

/// Whether `invoke` was called on `script`, at the point of its invocation,
/// on `request` and on a context whose transaction was begun from `before`
/// and is open, and reported an outcome that takes the context to `after`
/// and gives `result`.
pub open spec fn invoked_with<H: FnOnce(&Script, &Request, &ExecutionContext) -> HandlerOutcome>(
    invoke: H,
    script: Script,
    request: Request,
    before: ExecutionContext,
    after: ExecutionContext,
    result: Result<HandlerResult, Error>,
) -> bool {
    exists|seen: Script, during: ExecutionContext, outcome: HandlerOutcome|
        seen.is_same_at(script, Lifecycle::Invoked) && begun_from(before, during)
            && #[trigger] call_ensures(invoke, (&seen, &request, &during), outcome)
            && concluded_as(before, outcome, after, result)
}

/// What an invocation's result becomes behind the evaluation of the top
/// level: pending where that evaluation suspended.
pub open spec fn through(
    evaluation: ModuleEvaluation,
    inner: Result<HandlerResult, Error>,
) -> Result<HandlerResult, Error> {
    match inner {
        Ok(handed) => if evaluation is Pending {
            Ok(handed.chained())
        } else {
            Ok(handed)
        },
        Err(e) => Err(e),
    }
}

/// What initializing and running a function that holds `code` comes to.
/// `evaluate` was called on the initialized function; where the top level
/// did not run to its end, the evaluation failure and nothing else; where it
/// did, `invoke` was called on the function and `request`, and its outcome
/// decides.
pub open spec fn initialized_and_run<
    E: FnOnce(&Script) -> ModuleEvaluation,
    H: FnOnce(&Script, &Request, &ExecutionContext) -> HandlerOutcome,
>(
    evaluate: E,
    invoke: H,
    code: Seq<char>,
    address: Seq<u8>,
    operation: Seq<u8>,
    request: Request,
    before: ExecutionContext,
    after: ExecutionContext,
    result: Result<HandlerResult, Error>,
) -> bool {
    exists|script: Script, evaluation: ModuleEvaluation|
        script.is_initialized_for(code, address, operation) && #[trigger] call_ensures(
            evaluate,
            (&script,),
            evaluation,
        ) && if !evaluation.completed() {
            result == Err::<HandlerResult, Error>(Error::ScriptEvaluationFailure) && untouched(
                before,
                after,
            )
        } else {
            exists|inner: Result<HandlerResult, Error>| #[trigger]
                invoked_with(invoke, script, request, before, after, inner) && result == through(
                    evaluation,
                    inner,
                )
        }
}

/// What loading, initializing and running the function at `address` comes
/// to. Where no code is stored there, `InvalidAddress` and nothing else.
/// Otherwise `parse` was called on the stored code; where the parser refused
/// it, the evaluation failure and nothing else; where it accepted, the
/// function was initialized and run.
pub open spec fn loaded_and_run<
    P: FnOnce(&Script) -> bool,
    E: FnOnce(&Script) -> ModuleEvaluation,
    H: FnOnce(&Script, &Request, &ExecutionContext) -> HandlerOutcome,
>(
    parse: P,
    evaluate: E,
    invoke: H,
    accounts: Map<Seq<u8>, Account>,
    address: Seq<u8>,
    operation: Seq<u8>,
    request: Request,
    before: ExecutionContext,
    after: ExecutionContext,
    result: Result<HandlerResult, Error>,
) -> bool {
    match code_of(accounts, address) {
        None => result == Err::<HandlerResult, Error>(Error::InvalidAddress) && untouched(
            before,
            after,
        ),
        Some(code) => exists|fresh: Script, accepted: bool|
            fresh.is_fresh(code@) && #[trigger] call_ensures(parse, (&fresh,), accepted)
                && if !accepted {
                result == Err::<HandlerResult, Error>(Error::ScriptEvaluationFailure)
                    && untouched(before, after)
            } else {
                initialized_and_run(
                    evaluate,
                    invoke,
                    code@,
                    address,
                    operation,
                    request,
                    before,
                    after,
                    result,
                )
            },
    }
}

/// The address that `source` deploys `code` to, given the accounts.
pub open spec fn deployment_address(
    accounts: Map<Seq<u8>, Account>,
    source: Seq<u8>,
    code: Seq<char>,
) -> Seq<u8> {
    derived(source, vstd::utf8::encode_utf8(code), nonce_of(accounts, source) as nat)
}

/// What a deployment comes to: the account of the derived address created
/// with the code and the credit, or, where that address has an account
/// already, a failure and the ledger as it was.
pub open spec fn deployed_as(
    before: Ledger,
    source: Seq<u8>,
    code: String,
    balance: Amount,
    after: Ledger,
    deployed: Result<Address, Error>,
) -> bool {
    let address = deployment_address(before@, source, code@);
    if before@.contains_key(address) {
        deployed matches Err(e) && e == Error::AccountExists && after@ == before@
    } else {
        deployed matches Ok(at) && at@ == address && after@ == before@.insert(
            address,
            Account { nonce: 0, amount: balance, contract_code: Some(code) },
        )
    }
}

} // verus!
