use crate::ledger::Amount;
use vstd::prelude::*;

verus! {

/// Asks for a function to be run: the authority of `uri` names the function.
#[derive(Debug)]
pub struct RunContract {
    pub uri: String,
    pub method: String,
    pub headers: http::HeaderMap<http::HeaderValue>,
    pub body: Option<Vec<u8>>,
}

/// Asks for a function to be deployed with an initial credit.
#[derive(Debug)]
pub struct DeployContract {
    pub contract_code: String,
    pub contract_credit: Amount,
}

} // verus!
