use crate::address::{address_bytes, is_address_text, is_valid_address, parse_address};
use vstd::prelude::*;

verus! {

/// Errors of a call into a contract.
#[derive(Debug, Clone, Copy, PartialEq, Eq, Structural)]
pub enum InteractionError {
    InvalidAddress,
    FunctionCallFailed,
}

/// The name of the function that the ledger stand-in always rejects.
pub open spec fn rejected_function() -> Seq<char> {
    seq!['f', 'a', 'i', 'l', 'F', 'u', 'n', 'c', 't', 'i', 'o', 'n']
}

/// Whether two strings hold the same characters.
fn same_text(a: &str, b: &str) -> (r: bool)
    ensures
        r == (a@ == b@),
{
    let n = a.unicode_len();
    if n != b.unicode_len() {
        return false;
    }
    let mut i: usize = 0;
    while i < n
        invariant
            n == a@.len(),
            n == b@.len(),
            i <= n,
            forall|j: int| 0 <= j < i ==> a@[j] == b@[j],
        decreases n - i,
    {
        if a.get_char(i) != b.get_char(i) {
            return false;
        }
        i = i + 1;
    }
    assert(a@ =~= b@);
    true
}

/// Calls a contract function: the address must be well-formed; the call
/// succeeds unless the function is the one the ledger stand-in rejects.
pub fn call_contract_function(contract_address: &str, function_name: &str, params: &[&str]) -> (r:
    Result<(), InteractionError>)
    ensures
        !is_address_text(contract_address@) ==> r == Err::<(), InteractionError>(
            InteractionError::InvalidAddress,
        ),
        is_address_text(contract_address@) && function_name@ == rejected_function() ==> r == Err::<
            (),
            InteractionError,
        >(InteractionError::FunctionCallFailed),
        is_address_text(contract_address@) && function_name@ != rejected_function() ==> r is Ok,
{
    if !is_valid_address(contract_address) {
        return Err(InteractionError::InvalidAddress);
    }
    let rejected = "failFunction";
    proof {
        reveal_strlit("failFunction");
    }
    assert(rejected@ =~= rejected_function());
    if same_text(function_name, rejected) {
        Err(InteractionError::FunctionCallFailed)
    } else {
        Ok(())
    }
}

/// Resolves the contract whose data is read: the twenty bytes of its
/// address, or `None` when the address is malformed.
pub fn fetch_contract_data(contract_address: &str) -> (r: Option<[u8; 20]>)
    ensures
        r.is_some() <==> is_address_text(contract_address@),
        r matches Some(b) ==> b@ == address_bytes(contract_address@),
{
    parse_address(contract_address)
}

} // verus!
