use vstd::prelude::*;

verus! {

/// One whole claim unit, in the six-decimal fixed point of prices and
/// quantities.
pub const UNIT: u64 = 1_000_000;

/// Reference-currency total for `qty` claim units at `price`: the product
/// rounded down to whole units, or nothing where the product does not fit
/// in 64 bits.
pub open spec fn spec_trade_total(qty: u64, price: u64) -> Option<u64> {
    if qty * price <= u64::MAX {
        Some((qty * price / (UNIT as int)) as u64)
    } else {
        None
    }
}

/// Computes the total of a trade, multiplying before dividing.
pub fn trade_total(qty: u64, price: u64) -> (r: Option<u64>)
    ensures
        r == spec_trade_total(qty, price),
{
    match qty.checked_mul(price) {
        Some(raw) => Some(raw / UNIT),
        None => None,
    }
}

} // verus!
