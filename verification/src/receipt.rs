use crate::address::Address;
use vstd::prelude::*;

verus! {

/// What running a function gave.
#[derive(Debug)]
pub struct RunContract {
    pub body: Option<Vec<u8>>,
    pub status_code: u16,
    pub headers: http::HeaderMap<http::HeaderValue>,
}

/// Where a function was deployed.
#[derive(Debug)]
pub struct DeployContract {
    pub contract_address: Address,
}

} // verus!
