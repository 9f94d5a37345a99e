use crate::address::{is_address_text, is_valid_address};
use vstd::prelude::*;

verus! {

/// Errors of a contract update.
#[derive(Debug, Clone, Copy, PartialEq, Eq, Structural)]
pub enum UpdateError {
    InvalidAddress,
    UpdateFailed,
}

/// Checks an update request: the contract address must be well-formed and the
/// new bytecode non-empty. A request that passes is handed to the ledger.
pub fn update_contract(contract_address: &str, new_code: &[u8]) -> (r: Result<(), UpdateError>)
    ensures
        !is_address_text(contract_address@) ==> r == Err::<(), UpdateError>(
            UpdateError::InvalidAddress,
        ),
        is_address_text(contract_address@) && new_code@.len() == 0 ==> r == Err::<(), UpdateError>(
            UpdateError::UpdateFailed,
        ),
        is_address_text(contract_address@) && new_code@.len() > 0 ==> r is Ok,
{
    if !is_valid_address(contract_address) {
        return Err(UpdateError::InvalidAddress);
    }
    if new_code.len() == 0 {
        return Err(UpdateError::UpdateFailed);
    }
    Ok(())
}

} // verus!
