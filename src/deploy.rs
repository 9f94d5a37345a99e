use crate::address::{is_address_text, is_valid_address};
use vstd::prelude::*;

verus! {

/// Errors of a contract deployment.
#[derive(Debug, Clone, Copy, PartialEq, Eq, Structural)]
pub enum DeployError {
    InvalidContractCode,
    InvalidAddress,
    DeploymentFailed,
}

/// Checks a deployment request: the bytecode must be non-empty and the sender
/// a well-formed address. A request that passes is handed to the ledger.
pub fn deploy_contract(contract_code: &[u8], gas_limit: u64, sender_address: &str) -> (r: Result<
    (),
    DeployError,
>)
    ensures
        contract_code@.len() == 0 ==> r == Err::<(), DeployError>(DeployError::InvalidContractCode),
        contract_code@.len() > 0 && !is_address_text(sender_address@) ==> r == Err::<
            (),
            DeployError,
        >(DeployError::InvalidAddress),
        contract_code@.len() > 0 && is_address_text(sender_address@) ==> r is Ok,
{
    if contract_code.len() == 0 {
        return Err(DeployError::InvalidContractCode);
    }
    if !is_valid_address(sender_address) {
        return Err(DeployError::InvalidAddress);
    }
    Ok(())
}

} // verus!
