use vstd::prelude::*;

use crate::records::{BPS_DENOMINATOR, ErrorCode};

verus! {

/// The platform's share of a payment: `floor(amount * fee_bps / 10000)`.
pub open spec fn fee_of(amount: nat, fee_bps: nat) -> nat {
    (amount * fee_bps / (BPS_DENOMINATOR as nat)) as nat
}

/// At a rate of at most 100% the fee never exceeds the payment.
pub proof fn lemma_fee_within_payment(amount: nat, fee_bps: nat)
    requires
        fee_bps <= BPS_DENOMINATOR,
    ensures
        fee_of(amount, fee_bps) <= amount,
{
    assert(amount * fee_bps <= amount * 10000) by (nonlinear_arith)
        requires fee_bps <= 10000;
    assert(amount * fee_bps / 10000 <= amount * 10000 / 10000) by (nonlinear_arith)
        requires amount * fee_bps <= amount * 10000;
    assert(amount * 10000 / 10000 == amount) by (nonlinear_arith);
}

/// Splits a payment into `(fee, vehicle_payment)`.
///
/// The product is formed in 128 bits, so it cannot overflow; the split fails
/// with `MathOverflow` exactly when the fee would exceed the payment.
pub fn compute_fee_split(payment_amount: u64, fee_bps: u16) -> (r: Result<(u64, u64), ErrorCode>)
    ensures
        fee_bps <= BPS_DENOMINATOR ==> r is Ok,
        r is Ok <==> fee_of(payment_amount as nat, fee_bps as nat) <= payment_amount,
        r is Err ==> r == Err::<(u64, u64), ErrorCode>(ErrorCode::MathOverflow),
        r matches Ok((fee, vehicle_payment)) ==> {
            &&& fee == fee_of(payment_amount as nat, fee_bps as nat)
            &&& fee + vehicle_payment == payment_amount
        },
{
    proof {
        if fee_bps <= BPS_DENOMINATOR {
            lemma_fee_within_payment(payment_amount as nat, fee_bps as nat);
        }
        let a = payment_amount as nat;
        let b = fee_bps as nat;
        assert(a * b <= 0xffff_ffff_ffff_ffff * 0xffff) by (nonlinear_arith)
            requires a <= 0xffff_ffff_ffff_ffff, b <= 0xffff;
    }
    let product: u128 = (payment_amount as u128) * (fee_bps as u128);
    let fee_wide: u128 = product / (BPS_DENOMINATOR as u128);
    if fee_wide > payment_amount as u128 {
        return Err(ErrorCode::MathOverflow);
    }
    let fee: u64 = fee_wide as u64;
    Ok((fee, payment_amount - fee))
}

} // verus!
