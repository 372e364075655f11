use vstd::prelude::*;

verus! {

/// Denominator of a basis-point fee: 10000 bps is the whole amount.
pub const BPS_DENOMINATOR: u16 = 10000;

/// The platform's share of `sale_price` at `fee_bps` basis points, rounded down.
pub open spec fn platform_cut_of(sale_price: nat, fee_bps: nat) -> nat {
    (sale_price * fee_bps) / 10000
}

/// Splits a sale price into the platform's cut and what is left for the seller.
///
/// The product is formed in 128 bits, so it cannot overflow for any `u64`
/// price; the division rounds down.
pub fn split(sale_price: u64, fee_bps: u16) -> (r: (u64, u64))
    requires
        fee_bps <= 10000,
    ensures
        r.0 == platform_cut_of(sale_price as nat, fee_bps as nat),
        r.0 + r.1 == sale_price,
        r.0 <= sale_price,
{
    proof {
        assert(sale_price as int * fee_bps as int <= 0xffff_ffff_ffff_ffff * 10000int)
            by (nonlinear_arith)
            requires
                sale_price <= 0xffff_ffff_ffff_ffffu64,
                fee_bps <= 10000,
        ;
    }
    let product: u128 = (sale_price as u128) * (fee_bps as u128);
    let cut128: u128 = product / (BPS_DENOMINATOR as u128);
    proof {
        assert(product == sale_price as int * fee_bps as int);
        assert(product <= sale_price as int * 10000) by (nonlinear_arith)
            requires
                product == sale_price as int * fee_bps as int,
                fee_bps <= 10000,
        ;
        assert(cut128 <= sale_price) by (nonlinear_arith)
            requires
                product <= sale_price as int * 10000,
                cut128 == product / 10000,
        ;
    }
    let cut: u64 = cut128 as u64;
    (cut, sale_price - cut)
}

} // verus!
