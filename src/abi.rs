use vstd::prelude::*;

verus! {

/// A function of a contract's ABI (application binary interface).
#[derive(Debug, Clone)]
pub struct AbiFunction {
    /// The function's name.
    pub name: String,
    /// The types of its parameters.
    pub inputs: Vec<String>,
    /// The types of its results.
    pub outputs: Vec<String>,
    /// Whether it accepts a payment.
    pub payable: bool,
    /// Whether it leaves the contract's state unchanged.
    pub constant: bool,
}

} // verus!
