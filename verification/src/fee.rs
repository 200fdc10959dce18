use vstd::prelude::*;

verus! {

/// The fee owed on `price` at `fee_percent` percent, rounded down.
pub open spec fn fee_amount_spec(price: u64, fee_percent: u8) -> int {
    (price as int * fee_percent as int) / 100
}

/// Computes `price * fee_percent / 100` with floor division.
///
/// The product is formed in 128 bits, so no price overflows it; with
/// `fee_percent <= 100` the quotient never exceeds `price`.
pub fn fee_amount(price: u64, fee_percent: u8) -> (fee: u64)
    requires
        fee_percent <= 100,
    ensures
        fee as int == fee_amount_spec(price, fee_percent),
        fee <= price,
{
    assert(price as int * fee_percent as int <= u64::MAX as int * 100) by (nonlinear_arith)
        requires
            fee_percent <= 100,
    ;
    let wide: u128 = (price as u128) * (fee_percent as u128);
    let quotient: u128 = wide / 100;
    assert(quotient <= price) by (nonlinear_arith)
        requires
            quotient == (price as int * fee_percent as int) / 100,
            fee_percent <= 100,
    ;
    quotient as u64
}

} // verus!
