use vstd::prelude::*;

verus! {

/// Fixed cost of any transaction.
pub const BASE_GAS: u64 = 21000;

/// Gas charged per byte of contract code.
pub const GAS_PER_BYTE: u64 = 10;

/// Gas charged per unit of contract complexity.
pub const GAS_PER_COMPLEXITY: u64 = 50;

/// Gas price above which a limit is tightened rather than relaxed.
pub const HIGH_PRICE_THRESHOLD: u64 = 100;

/// The raw estimate for a contract of `size` bytes and the given complexity.
pub open spec fn estimated_gas_of(size: nat, complexity: nat) -> nat {
    (BASE_GAS + size * GAS_PER_BYTE + complexity * GAS_PER_COMPLEXITY) as nat
}

/// The estimate with a fixed 20% safety buffer, truncated.
pub open spec fn dynamic_limit_of(size: nat, complexity: nat) -> nat {
    (estimated_gas_of(size, complexity) * 12 / 10) as nat
}

/// The percentage applied to a limit under the given gas price.
pub open spec fn price_factor(price: nat) -> nat {
    if price > HIGH_PRICE_THRESHOLD {
        90
    } else {
        110
    }
}

/// A limit scaled by the percentage that the gas price selects, truncated.
pub open spec fn price_adjusted_limit(price: nat, limit: nat) -> nat {
    (limit * price_factor(price) / 100) as nat
}

/// Errors of the gas computations.
#[derive(Debug, Clone, Copy, PartialEq, Eq, Structural)]
pub enum GasOptimizationError {
    /// A limit that must be non-zero was zero.
    InvalidGasLimit,
    /// The computation produced no usable amount.
    GasCalculationFailed,
    /// The provided limit is below the required estimate.
    InsufficientGas { provided: u64, required: u128 },
}

/// An estimate of the gas a transaction needs, and the most it may use.
#[derive(Debug, Clone, Copy, PartialEq, Eq, Structural)]
pub struct GasEstimate {
    pub estimated_gas: u128,
    pub max_gas: u128,
}

impl GasEstimate {
    /// The maximum is exactly twice the estimate.
    pub open spec fn wf(self) -> bool {
        self.max_gas == 2 * self.estimated_gas
    }
}

/// Estimates the gas needed by a contract from its size in bytes and its
/// complexity factor; the maximum is twice the estimate.
pub fn estimate_gas(contract_size: u64, complexity: u64) -> (r: GasEstimate)
    ensures
        r.estimated_gas == estimated_gas_of(contract_size as nat, complexity as nat),
        r.max_gas == 2 * estimated_gas_of(contract_size as nat, complexity as nat),
        r.wf(),
{
    let size = contract_size as u128;
    let cx = complexity as u128;
    proof {
        assert(size * 10 <= 0xffff_ffff_ffff_ffff * 10) by (nonlinear_arith)
            requires size <= 0xffff_ffff_ffff_ffff;
        assert(cx * 50 <= 0xffff_ffff_ffff_ffff * 50) by (nonlinear_arith)
            requires cx <= 0xffff_ffff_ffff_ffff;
    }
    let estimated: u128 = BASE_GAS as u128 + size * GAS_PER_BYTE as u128
        + cx * GAS_PER_COMPLEXITY as u128;
    GasEstimate { estimated_gas: estimated, max_gas: estimated * 2 }
}

/// Accepts `gas_limit` when it covers the estimate, and reports the shortfall
/// (provided, required) otherwise.
pub fn check_gas_limit(gas_limit: u64, estimate: &GasEstimate) -> (r: Result<(), GasOptimizationError>)
    ensures
        gas_limit >= estimate.estimated_gas ==> r == Ok::<(), GasOptimizationError>(()),
        gas_limit < estimate.estimated_gas ==> r == Err::<(), GasOptimizationError>(
            GasOptimizationError::InsufficientGas {
                provided: gas_limit,
                required: estimate.estimated_gas,
            },
        ),
{
    if (gas_limit as u128) < estimate.estimated_gas {
        Err(GasOptimizationError::InsufficientGas { provided: gas_limit, required: estimate.estimated_gas })
    } else {
        Ok(())
    }
}

/// The estimate for the contract plus a fixed 20% safety buffer, truncated.
pub fn optimize_gas_dynamically(contract_size: u64, complexity: u64) -> (r: u128)
    ensures
        r == dynamic_limit_of(contract_size as nat, complexity as nat),
{
    let estimate = estimate_gas(contract_size, complexity);
    estimate.estimated_gas * 12 / 10
}

/// Tightens `gas_limit` to 90% when the gas price is above the threshold, and
/// relaxes it to 110% otherwise, truncated.
pub fn optimize_gas_by_price(current_gas_price: u64, gas_limit: u64) -> (r: u128)
    ensures
        r == price_adjusted_limit(current_gas_price as nat, gas_limit as nat),
{
    let factor: u128 = if current_gas_price > HIGH_PRICE_THRESHOLD {
        90
    } else {
        110
    };
    gas_limit as u128 * factor / 100
}

/// Half of a non-zero limit, which is the share of it a transaction is
/// expected to use; a limit of zero or one leaves nothing to estimate.
pub fn estimate_gas_from_limit(gas_limit: u64) -> (r: Result<u64, GasOptimizationError>)
    ensures
        gas_limit == 0 ==> r == Err::<u64, GasOptimizationError>(GasOptimizationError::InvalidGasLimit),
        gas_limit == 1 ==> r == Err::<u64, GasOptimizationError>(
            GasOptimizationError::GasCalculationFailed,
        ),
        gas_limit >= 2 ==> r == Ok::<u64, GasOptimizationError>(gas_limit / 2),
{
    if gas_limit == 0 {
        return Err(GasOptimizationError::InvalidGasLimit);
    }
    let estimated = gas_limit / 2;
    if estimated == 0 {
        return Err(GasOptimizationError::GasCalculationFailed);
    }
    Ok(estimated)
}

} // verus!
