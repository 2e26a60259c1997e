use vstd::prelude::*;

use crate::fee::{fee_of, lemma_fee_within_payment};
use crate::instructions::{
    accept_outcome, complete_outcome, create_outcome, initialize_outcome, register_outcome,
    AcceptDelivery, CompleteDelivery, CreateDeliveryOrder, InitializeConfig, RegisterVehicle,
};
use crate::identity::Identity;
use crate::records::{DeliveryStatus, ErrorCode};

verus! {

/// A completion whose escrow holds exactly the payment pays out all of it:
/// the operator's share and the fee add up to the payment, the treasury gets
/// exactly the fee, and the escrow is left empty.
pub proof fn lemma_completion_splits_payment(pre: CompleteDelivery, now: i64)
    requires
        pre.escrow.balance == pre.delivery.payment_amount,
    ensures
        complete_outcome(pre, now) matches Ok(post) ==> {
            &&& post.escrow.balance == 0
            &&& post.treasury_lamports - pre.treasury_lamports == fee_of(
                pre.delivery.payment_amount as nat,
                pre.config.fee_bps as nat,
            )
            &&& (post.operator_lamports - pre.operator_lamports) + (post.treasury_lamports
                - pre.treasury_lamports) == pre.delivery.payment_amount
        },
{
}

/// With a fee rate of at most 100%, the fee never makes a completion fail:
/// once the records are in order and the balances have room, it succeeds.
pub proof fn lemma_completion_fee_in_range(pre: CompleteDelivery, now: i64)
    requires
        pre.config.wf(),
        pre.treasury@ == pre.config.treasury@,
        pre.config.accepting(),
        pre.delivery.status == DeliveryStatus::InProgress,
        pre.delivery.assigned_to(pre.vehicle_key),
        pre.escrow.balance >= pre.delivery.payment_amount,
        pre.operator_lamports + pre.delivery.payment_amount <= u64::MAX,
        pre.treasury_lamports + pre.delivery.payment_amount <= u64::MAX,
        pre.vehicle.total_deliveries < u64::MAX,
    ensures
        complete_outcome(pre, now) is Ok,
{
    lemma_fee_within_payment(pre.delivery.payment_amount as nat, pre.config.fee_bps as nat);
}

/// Accepting moves an order from pending to in progress and nothing else; it
/// fails with `InvalidDeliveryStatus` whenever the order is not pending (the
/// platform accepting and the vehicle free).
pub proof fn lemma_accept_status_step(pre: AcceptDelivery, now: i64)
    ensures
        accept_outcome(pre, now) matches Ok(post) ==> {
            &&& pre.delivery.status == DeliveryStatus::Pending
            &&& post.delivery.status == DeliveryStatus::InProgress
        },
        pre.config.accepting() && pre.vehicle.available() && pre.delivery.status
            != DeliveryStatus::Pending ==> accept_outcome(pre, now) == Err::<
            AcceptDelivery,
            ErrorCode,
        >(ErrorCode::InvalidDeliveryStatus),
{
}

/// Completing moves an order from in progress to completed and nothing else;
/// it fails with `InvalidDeliveryStatus` whenever the order is not in progress
/// (the treasury offered being the platform's, and the platform accepting).
pub proof fn lemma_complete_status_step(pre: CompleteDelivery, now: i64)
    ensures
        complete_outcome(pre, now) matches Ok(post) ==> {
            &&& pre.delivery.status == DeliveryStatus::InProgress
            &&& post.delivery.status == DeliveryStatus::Completed
        },
        pre.treasury@ == pre.config.treasury@ && pre.config.accepting() && pre.delivery.status
            != DeliveryStatus::InProgress ==> complete_outcome(pre, now) == Err::<
            CompleteDelivery,
            ErrorCode,
        >(ErrorCode::InvalidDeliveryStatus),
{
}

/// A busy vehicle is never bound to an order.
pub proof fn lemma_busy_vehicle_refused(pre: AcceptDelivery, now: i64)
    requires
        pre.vehicle.is_busy,
    ensures
        accept_outcome(pre, now) is Err,
{
}

/// Once a vehicle has accepted an order, no second acceptance with that
/// vehicle record succeeds; only a completion frees it.
pub proof fn lemma_accepted_vehicle_stays_taken(
    first: AcceptDelivery,
    second: AcceptDelivery,
    now1: i64,
    now2: i64,
)
    requires
        accept_outcome(first, now1) matches Ok(post) && second.vehicle == post.vehicle,
    ensures
        accept_outcome(second, now2) is Err,
{
}

/// A completion frees the vehicle.
pub proof fn lemma_completion_frees_vehicle(pre: CompleteDelivery, now: i64)
    ensures
        complete_outcome(pre, now) matches Ok(post) ==> !post.vehicle.is_busy,
{
}

/// Completion by any vehicle other than the one bound to the order fails with
/// `Unauthorized` (the treasury offered being the platform's, the platform
/// accepting, and the order in progress).
pub proof fn lemma_completion_by_other_vehicle_refused(pre: CompleteDelivery, now: i64)
    requires
        pre.treasury@ == pre.config.treasury@,
        pre.config.accepting(),
        pre.delivery.status == DeliveryStatus::InProgress,
        !pre.delivery.assigned_to(pre.vehicle_key),
    ensures
        complete_outcome(pre, now) == Err::<CompleteDelivery, ErrorCode>(ErrorCode::Unauthorized),
{
}

/// Completion with a fee recipient other than the platform treasury fails
/// with `InvalidTreasury`.
pub proof fn lemma_completion_wrong_treasury_refused(pre: CompleteDelivery, now: i64)
    requires
        pre.treasury@ != pre.config.treasury@,
    ensures
        complete_outcome(pre, now) == Err::<CompleteDelivery, ErrorCode>(
            ErrorCode::InvalidTreasury,
        ),
{
}

/// Initialization yields well-formed settings.
pub proof fn lemma_initialize_wf(pre: InitializeConfig, fee_bps: u16, treasury: Identity)
    ensures
        initialize_outcome(pre, fee_bps, treasury) matches Ok(post) ==> post.config matches Some(
            c,
        ) && c.wf(),
{
}

/// A newly registered vehicle is well formed and free.
pub proof fn lemma_register_wf(
    pre: RegisterVehicle,
    vehicle_id: String,
    operator: Identity,
    location: String,
    now: i64,
)
    ensures
        register_outcome(pre, vehicle_id, operator, location, now) matches Ok(post) ==> post.vehicle matches Some(
            v,
        ) && v.wf() && v.available(),
{
}

/// A new order is well formed, pending, and its escrow holds exactly its
/// payment, taken from the customer.
pub proof fn lemma_create_wf(
    pre: CreateDeliveryOrder,
    delivery_id: u64,
    payment_amount: u64,
    pickup_location: String,
    delivery_location: String,
    now: i64,
)
    ensures
        create_outcome(pre, delivery_id, payment_amount, pickup_location, delivery_location, now) matches Ok(
            post,
        ) ==> {
            &&& post.delivery matches Some(d) && d.wf() && d.status == DeliveryStatus::Pending
            &&& post.escrow matches Some(e) && e.balance == payment_amount
            &&& post.customer_lamports + payment_amount == pre.customer_lamports
        },
{
}

/// Acceptance keeps the order and the vehicle well formed and leaves the
/// order's payment untouched.
pub proof fn lemma_accept_preserves_wf(pre: AcceptDelivery, now: i64)
    requires
        pre.delivery.wf(),
        pre.vehicle.wf(),
    ensures
        accept_outcome(pre, now) matches Ok(post) ==> {
            &&& post.delivery.wf()
            &&& post.vehicle.wf()
            &&& post.delivery.payment_amount == pre.delivery.payment_amount
            &&& post.delivery.assigned_to(pre.vehicle_key)
        },
{
}

/// Completion keeps the order and the vehicle well formed.
pub proof fn lemma_complete_preserves_wf(pre: CompleteDelivery, now: i64)
    requires
        pre.delivery.wf(),
        pre.vehicle.wf(),
    ensures
        complete_outcome(pre, now) matches Ok(post) ==> {
            &&& post.delivery.wf()
            &&& post.vehicle.wf()
        },
{
}

} // verus!
