use crate::address::{is_address_text, is_valid_address};
use vstd::prelude::*;

verus! {

/// Errors of watching a contract's events.
#[derive(Debug, Clone, Copy, PartialEq, Eq, Structural)]
pub enum WatchError {
    InvalidAddress,
    EventListeningFailed,
}

/// Decides a watch from the ledger's answer: the address must be
/// well-formed, and the watch succeeds exactly when the event was found.
pub fn watch_contract_events(contract_address: &str, event_name: &str, event_found: bool) -> (r:
    Result<(), WatchError>)
    ensures
        !is_address_text(contract_address@) ==> r == Err::<(), WatchError>(
            WatchError::InvalidAddress,
        ),
        is_address_text(contract_address@) && event_found ==> r is Ok,
        is_address_text(contract_address@) && !event_found ==> r == Err::<(), WatchError>(
            WatchError::EventListeningFailed,
        ),
{
    if !is_valid_address(contract_address) {
        return Err(WatchError::InvalidAddress);
    }
    if event_found {
        Ok(())
    } else {
        Err(WatchError::EventListeningFailed)
    }
}

} // verus!
