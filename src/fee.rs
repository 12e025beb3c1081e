use vstd::prelude::*;

verus! {

/// The size in bytes that the wallet assumes for a transaction: a fixed
/// legacy-size estimate, larger than a SegWit transaction's virtual size.
pub open spec fn estimated_size(inputs: int, outputs: int) -> int {
    10 + 148 * inputs + 34 * outputs
}

/// The fee at `rate` satoshis per byte for a transaction of the estimated size.
pub open spec fn estimated_fee(rate: int, inputs: int, outputs: int) -> int {
    rate * estimated_size(inputs, outputs)
}

/// Estimates the size in bytes of a transaction with the given numbers of
/// inputs and outputs.
pub fn estimate_tx_size(inputs: u64, outputs: u64) -> (r: u128)
    ensures
        r == estimated_size(inputs as int, outputs as int),
{
    10 + 148 * (inputs as u128) + 34 * (outputs as u128)
}

/// The absolute fee at `rate` satoshis per byte for a transaction with the
/// given numbers of inputs and outputs.
pub fn estimate_fee(rate: u32, inputs: u64, outputs: u64) -> (r: u128)
    ensures
        r == estimated_fee(rate as int, inputs as int, outputs as int),
        r < 0x1_0000_0000_0000_0000_0000_0000_0000u128,
{
    let size = estimate_tx_size(inputs, outputs);
    assert(size < 0x1_0000_0000_0000_0000_0000u128);
    assert((rate as int) * (size as int) <= 0xFFFF_FFFF * 0x1_0000_0000_0000_0000_0000) by (nonlinear_arith)
        requires
            rate <= 0xFFFF_FFFF,
            size < 0x1_0000_0000_0000_0000_0000u128,
    ;
    (rate as u128) * size
}

} // verus!
