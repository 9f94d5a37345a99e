use crate::gas::{price_adjusted_limit, HIGH_PRICE_THRESHOLD};
use vstd::prelude::*;

verus! {

/// The sum of the prices.
pub open spec fn sum_prices(prices: Seq<u64>) -> nat
    decreases prices.len(),
{
    if prices.len() == 0 {
        0
    } else {
        sum_prices(prices.drop_last()) + prices.last() as nat
    }
}

/// The truncated mean of the prices, or zero when there are none.
pub open spec fn average_price(prices: Seq<u64>) -> nat {
    if prices.len() == 0 {
        0
    } else {
        sum_prices(prices) / prices.len() as nat
    }
}

/// Adjusts `current_gas_limit` by the mean of past gas prices: tightened to
/// 90% when the mean is above the threshold, relaxed to 110% otherwise.
pub fn optimize_gas_usage(historical_gas_prices: Vec<u64>, current_gas_limit: u64) -> (r: u128)
    ensures
        r == price_adjusted_limit(average_price(historical_gas_prices@), current_gas_limit as nat),
{
    let n = historical_gas_prices.len();
    let mut total: u128 = 0;
    let mut i: usize = 0;
    while i < n
        invariant
            n == historical_gas_prices@.len(),
            i <= n,
            total == sum_prices(historical_gas_prices@.take(i as int)),
            total <= i * 0xffff_ffff_ffff_ffffu128,
        decreases n - i,
    {
        let p = historical_gas_prices[i];
        proof {
            let s = historical_gas_prices@;
            assert(s.take(i + 1).drop_last() =~= s.take(i as int));
            let k = i as int;
            let m = 0xffff_ffff_ffff_ffffu64 as int;
            assert(k * m + m == (k + 1) * m) by (nonlinear_arith);
            assert((k + 1) * m <= 0x1_0000_0000_0000_0000 * m) by (nonlinear_arith)
                requires
                    k < 0x1_0000_0000_0000_0000,
                    m >= 0,
            ;
        }
        total = total + p as u128;
        i = i + 1;
    }
    proof {
        assert(historical_gas_prices@.take(n as int) =~= historical_gas_prices@);
    }
    let average: u128 = if n == 0 {
        0
    } else {
        total / n as u128
    };
    let factor: u128 = if average > HIGH_PRICE_THRESHOLD as u128 {
        90
    } else {
        110
    };
    current_gas_limit as u128 * factor / 100
}

} // verus!
