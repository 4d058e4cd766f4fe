use crate::address::Address;
use crate::error::Error;
use crate::ledger::{Account, Ledger};
use crate::operation;
use crate::receipt;
use crate::script::{deployment_address, Script};
use vstd::prelude::*;

verus! {

/// What executing a deployment comes to: a receipt with the derived address,
/// whose account is created with the code and the credit; or, where that
/// address has an account already, a failure and the ledger as it was.
pub open spec fn deployment_executed(
    before: Ledger,
    source: Seq<u8>,
    deployment: operation::DeployContract,
    after: Ledger,
    result: Result<receipt::DeployContract, Error>,
) -> bool {
    let address = deployment_address(before@, source, deployment.contract_code@);
    if before@.contains_key(address) {
        result matches Err(e) && e == Error::AccountExists && after@ == before@
    } else {
        result matches Ok(receipt) && receipt.contract_address@ == address && after@
            == before@.insert(
            address,
            Account {
                nonce: 0,
                amount: deployment.contract_credit,
                contract_code: Some(deployment.contract_code),
            },
        )
    }
}

/// Deploys the function that `deployment` describes, on behalf of `source`.
pub fn execute(ledger: &mut Ledger, source: &Address, deployment: operation::DeployContract) -> (result:
    Result<receipt::DeployContract, Error>)
    ensures
        deployment_executed(*old(ledger), source@, deployment, *final(ledger), result),
{
    match Script::deploy(ledger, source, deployment.contract_code, deployment.contract_credit) {
        Ok(address) => Ok(receipt::DeployContract { contract_address: address }),
        Err(e) => Err(e),
    }
}

} // verus!
