use vstd::prelude::*;

use crate::fee::{compute_fee_split, fee_of};
use crate::identity::Identity;
use crate::records::{
    byte_len, BPS_DENOMINATOR, Config, Delivery, DeliveryStatus, ErrorCode, Escrow,
    MAX_LOCATION_LEN, MAX_VEHICLE_ID_LEN, Vehicle,
};

verus! {

/// The records that creating the platform settings touches.
pub struct InitializeConfig {
    /// The settings slot; `None` while it holds no record.
    pub config: Option<Config>,
    /// The signing platform authority.
    pub authority: Identity,
}

/// The outcome of `initialize_config` on `pre`.
pub open spec fn initialize_outcome(pre: InitializeConfig, fee_bps: u16, treasury: Identity) -> Result<
    InitializeConfig,
    ErrorCode,
> {
    if pre.config is Some {
        Err(ErrorCode::AlreadyInitialized)
    } else if fee_bps > BPS_DENOMINATOR {
        Err(ErrorCode::InvalidParameter)
    } else {
        Ok(
            InitializeConfig {
                config: Some(
                    Config {
                        authority: pre.authority,
                        is_active: true,
                        is_paused: false,
                        fee_bps,
                        treasury,
                        version: 1,
                    },
                ),
                ..pre
            },
        )
    }
}

/// Creates the platform settings, active and unpaused, at version 1.
///
/// Refused with `AlreadyInitialized` when the slot holds a record, and with
/// `InvalidParameter` when the fee rate is above 100%.
pub fn initialize_config(ctx: &mut InitializeConfig, fee_bps: u16, treasury: Identity) -> (r: Result<
    (),
    ErrorCode,
>)
    ensures
        match initialize_outcome(*old(ctx), fee_bps, treasury) {
            Ok(post) => r is Ok && *final(ctx) == post,
            Err(e) => r == Err::<(), ErrorCode>(e) && *final(ctx) == *old(ctx),
        },
{
    if ctx.config.is_some() {
        return Err(ErrorCode::AlreadyInitialized);
    }
    if fee_bps as u64 > BPS_DENOMINATOR {
        return Err(ErrorCode::InvalidParameter);
    }
    ctx.config = Some(
        Config {
            authority: ctx.authority,
            is_active: true,
            is_paused: false,
            fee_bps,
            treasury,
            version: 1,
        },
    );
    Ok(())
}


/// The records that registering a vehicle touches.
pub struct RegisterVehicle {
    /// The vehicle's slot; `None` while it holds no record.
    pub vehicle: Option<Vehicle>,
    pub config: Config,
    /// The signer paying for the record.
    pub authority: Identity,
}

/// The outcome of `register_vehicle` on `pre`.
pub open spec fn register_outcome(
    pre: RegisterVehicle,
    vehicle_id: String,
    operator: Identity,
    location: String,
    now: i64,
) -> Result<RegisterVehicle, ErrorCode> {
    if byte_len(vehicle_id) > MAX_VEHICLE_ID_LEN || byte_len(location) > MAX_LOCATION_LEN {
        Err(ErrorCode::InvalidParameter)
    } else if !pre.config.accepting() {
        Err(ErrorCode::ConfigInactive)
    } else if pre.vehicle is Some {
        Err(ErrorCode::AlreadyInitialized)
    } else {
        Ok(
            RegisterVehicle {
                vehicle: Some(
                    Vehicle {
                        vehicle_id,
                        operator,
                        location,
                        is_active: true,
                        is_busy: false,
                        total_deliveries: 0,
                        registered_at: now,
                    },
                ),
                ..pre
            },
        )
    }
}

/// Registers a vehicle: active, free, with no deliveries, registered at `now`.
///
/// Refused with `InvalidParameter` when the identifier is over 32 bytes or the
/// location over 64, with `ConfigInactive` when the platform is inactive or
/// paused, and with `AlreadyInitialized` when the slot holds a record.
pub fn register_vehicle(
    ctx: &mut RegisterVehicle,
    vehicle_id: String,
    operator: Identity,
    location: String,
    now: i64,
) -> (r: Result<(), ErrorCode>)
    requires
        byte_len(vehicle_id) <= usize::MAX,
        byte_len(location) <= usize::MAX,
    ensures
        match register_outcome(*old(ctx), vehicle_id, operator, location, now) {
            Ok(post) => r is Ok && *final(ctx) == post,
            Err(e) => r == Err::<(), ErrorCode>(e) && *final(ctx) == *old(ctx),
        },
{
    if vehicle_id.as_str().len() > MAX_VEHICLE_ID_LEN || location.as_str().len() > MAX_LOCATION_LEN {
        return Err(ErrorCode::InvalidParameter);
    }
    if !(ctx.config.is_active && !ctx.config.is_paused) {
        return Err(ErrorCode::ConfigInactive);
    }
    if ctx.vehicle.is_some() {
        return Err(ErrorCode::AlreadyInitialized);
    }
    ctx.vehicle = Some(
        Vehicle {
            vehicle_id,
            operator,
            location,
            is_active: true,
            is_busy: false,
            total_deliveries: 0,
            registered_at: now,
        },
    );
    Ok(())
}

/// The records that placing an order touches.
pub struct CreateDeliveryOrder {
    /// The order's slot; `None` while it holds no record.
    pub delivery: Option<Delivery>,
    /// The order's escrow slot; `None` while it holds no record.
    pub escrow: Option<Escrow>,
    pub config: Config,
    /// The signing customer.
    pub customer: Identity,
    /// The customer's spendable balance.
    pub customer_lamports: u64,
}

/// The outcome of `create_delivery_order` on `pre`.
pub open spec fn create_outcome(
    pre: CreateDeliveryOrder,
    delivery_id: u64,
    payment_amount: u64,
    pickup_location: String,
    delivery_location: String,
    now: i64,
) -> Result<CreateDeliveryOrder, ErrorCode> {
    if byte_len(pickup_location) > MAX_LOCATION_LEN || byte_len(delivery_location)
        > MAX_LOCATION_LEN {
        Err(ErrorCode::InvalidParameter)
    } else if payment_amount == 0 {
        Err(ErrorCode::InvalidAmount)
    } else if !pre.config.accepting() {
        Err(ErrorCode::ConfigInactive)
    } else if pre.delivery is Some || pre.escrow is Some {
        Err(ErrorCode::AlreadyInitialized)
    } else if pre.customer_lamports < payment_amount {
        Err(ErrorCode::InsufficientFunds)
    } else {
        Ok(
            CreateDeliveryOrder {
                delivery: Some(
                    Delivery {
                        delivery_id,
                        customer: pre.customer,
                        payment_amount,
                        pickup_location,
                        delivery_location,
                        status: DeliveryStatus::Pending,
                        assigned_vehicle: None,
                        created_at: now,
                        accepted_at: None,
                        completed_at: None,
                    },
                ),
                escrow: Some(Escrow { balance: payment_amount }),
                customer_lamports: (pre.customer_lamports - payment_amount) as u64,
                ..pre
            },
        )
    }
}

/// Places an order: moves `payment_amount` from the customer into a new
/// escrow and records a pending order created at `now`.
///
/// Refused with `InvalidParameter` when a location is over 64 bytes, with
/// `InvalidAmount` for a zero payment, with `ConfigInactive` when the platform
/// is inactive or paused, with `AlreadyInitialized` when the order or its
/// escrow exists, and with `InsufficientFunds` when the customer cannot pay.
pub fn create_delivery_order(
    ctx: &mut CreateDeliveryOrder,
    delivery_id: u64,
    payment_amount: u64,
    pickup_location: String,
    delivery_location: String,
    now: i64,
) -> (r: Result<(), ErrorCode>)
    requires
        byte_len(pickup_location) <= usize::MAX,
        byte_len(delivery_location) <= usize::MAX,
    ensures
        match create_outcome(
            *old(ctx),
            delivery_id,
            payment_amount,
            pickup_location,
            delivery_location,
            now,
        ) {
            Ok(post) => r is Ok && *final(ctx) == post,
            Err(e) => r == Err::<(), ErrorCode>(e) && *final(ctx) == *old(ctx),
        },
{
    if pickup_location.as_str().len() > MAX_LOCATION_LEN || delivery_location.as_str().len()
        > MAX_LOCATION_LEN {
        return Err(ErrorCode::InvalidParameter);
    }
    if payment_amount == 0 {
        return Err(ErrorCode::InvalidAmount);
    }
    if !(ctx.config.is_active && !ctx.config.is_paused) {
        return Err(ErrorCode::ConfigInactive);
    }
    if ctx.delivery.is_some() || ctx.escrow.is_some() {
        return Err(ErrorCode::AlreadyInitialized);
    }
    if ctx.customer_lamports < payment_amount {
        return Err(ErrorCode::InsufficientFunds);
    }
    ctx.customer_lamports = ctx.customer_lamports - payment_amount;
    ctx.escrow = Some(Escrow { balance: payment_amount });
    ctx.delivery = Some(
        Delivery {
            delivery_id,
            customer: ctx.customer,
            payment_amount,
            pickup_location,
            delivery_location,
            status: DeliveryStatus::Pending,
            assigned_vehicle: None,
            created_at: now,
            accepted_at: None,
            completed_at: None,
        },
    );
    Ok(())
}

/// The records that binding a vehicle to an order touches.
pub struct AcceptDelivery {
    pub delivery: Delivery,
    pub vehicle: Vehicle,
    /// The record address of `vehicle`.
    pub vehicle_key: Identity,
    pub config: Config,
    /// The signer acting for the vehicle.
    pub operator: Identity,
}

/// The outcome of `accept_delivery` on `pre`.
pub open spec fn accept_outcome(pre: AcceptDelivery, now: i64) -> Result<AcceptDelivery, ErrorCode> {
    if !pre.config.accepting() {
        Err(ErrorCode::ConfigInactive)
    } else if !pre.vehicle.available() {
        Err(ErrorCode::VehicleNotAvailable)
    } else if pre.delivery.status != DeliveryStatus::Pending {
        Err(ErrorCode::InvalidDeliveryStatus)
    } else if pre.operator@ != pre.vehicle.operator@ {
        Err(ErrorCode::Unauthorized)
    } else {
        Ok(
            AcceptDelivery {
                vehicle: Vehicle { is_busy: true, ..pre.vehicle },
                delivery: Delivery {
                    status: DeliveryStatus::InProgress,
                    assigned_vehicle: Some(pre.vehicle_key),
                    accepted_at: Some(now),
                    ..pre.delivery
                },
                ..pre
            },
        )
    }
}

/// Binds a free vehicle to a pending order at `now`: the vehicle becomes busy
/// and the order in progress.
///
/// Refused with `ConfigInactive` when the platform is inactive or paused, with
/// `VehicleNotAvailable` when the vehicle is inactive or busy, with
/// `InvalidDeliveryStatus` when the order is not pending, and with
/// `Unauthorized` when the signer is not the vehicle's operator.
pub fn accept_delivery(ctx: &mut AcceptDelivery, now: i64) -> (r: Result<(), ErrorCode>)
    ensures
        match accept_outcome(*old(ctx), now) {
            Ok(post) => r is Ok && *final(ctx) == post,
            Err(e) => r == Err::<(), ErrorCode>(e) && *final(ctx) == *old(ctx),
        },
{
    if !(ctx.config.is_active && !ctx.config.is_paused) {
        return Err(ErrorCode::ConfigInactive);
    }
    if !(ctx.vehicle.is_active && !ctx.vehicle.is_busy) {
        return Err(ErrorCode::VehicleNotAvailable);
    }
    if ctx.delivery.status != DeliveryStatus::Pending {
        return Err(ErrorCode::InvalidDeliveryStatus);
    }
    if !ctx.operator.same_as(&ctx.vehicle.operator) {
        return Err(ErrorCode::Unauthorized);
    }
    ctx.vehicle.is_busy = true;
    ctx.delivery.status = DeliveryStatus::InProgress;
    ctx.delivery.assigned_vehicle = Some(ctx.vehicle_key);
    ctx.delivery.accepted_at = Some(now);
    Ok(())
}

/// The records that finishing an order touches.
pub struct CompleteDelivery {
    pub delivery: Delivery,
    pub escrow: Escrow,
    pub vehicle: Vehicle,
    /// The record address of `vehicle`: the identity completing the order.
    pub vehicle_key: Identity,
    /// The balance of the account that receives the vehicle's payment.
    pub operator_lamports: u64,
    /// The account offered as the fee recipient.
    pub treasury: Identity,
    pub treasury_lamports: u64,
    pub config: Config,
}

/// The outcome of `complete_delivery` on `pre`.
pub open spec fn complete_outcome(pre: CompleteDelivery, now: i64) -> Result<
    CompleteDelivery,
    ErrorCode,
> {
    let amount = pre.delivery.payment_amount;
    let fee = fee_of(amount as nat, pre.config.fee_bps as nat);
    if pre.treasury@ != pre.config.treasury@ {
        Err(ErrorCode::InvalidTreasury)
    } else if !pre.config.accepting() {
        Err(ErrorCode::ConfigInactive)
    } else if pre.delivery.status != DeliveryStatus::InProgress {
        Err(ErrorCode::InvalidDeliveryStatus)
    } else if !pre.delivery.assigned_to(pre.vehicle_key) {
        Err(ErrorCode::Unauthorized)
    } else if fee > amount || pre.escrow.balance < amount || pre.operator_lamports + (amount - fee)
        > u64::MAX || pre.treasury_lamports + fee > u64::MAX || pre.vehicle.total_deliveries
        == u64::MAX {
        Err(ErrorCode::MathOverflow)
    } else {
        Ok(
            CompleteDelivery {
                escrow: Escrow { balance: (pre.escrow.balance - amount) as u64 },
                operator_lamports: (pre.operator_lamports + (amount - fee)) as u64,
                treasury_lamports: (pre.treasury_lamports + fee) as u64,
                delivery: Delivery {
                    status: DeliveryStatus::Completed,
                    completed_at: Some(now),
                    ..pre.delivery
                },
                vehicle: Vehicle {
                    is_busy: false,
                    total_deliveries: (pre.vehicle.total_deliveries + 1) as u64,
                    ..pre.vehicle
                },
                ..pre
            },
        )
    }
}

/// Finishes an order at `now`: the escrow pays the vehicle's operator the
/// payment less the platform fee and the treasury the fee, the order is
/// completed, and the vehicle is freed with one more delivery counted.
///
/// Refused with `InvalidTreasury` when the fee recipient is not the platform
/// treasury, with `ConfigInactive` when the platform is inactive or paused,
/// with `InvalidDeliveryStatus` when the order is not in progress, with
/// `Unauthorized` when the vehicle is not the one bound to the order, and with
/// `MathOverflow` when the fee exceeds the payment or a balance or counter
/// would leave the range of `u64`.
pub fn complete_delivery(ctx: &mut CompleteDelivery, now: i64) -> (r: Result<(), ErrorCode>)
    ensures
        match complete_outcome(*old(ctx), now) {
            Ok(post) => r is Ok && *final(ctx) == post,
            Err(e) => r == Err::<(), ErrorCode>(e) && *final(ctx) == *old(ctx),
        },
{
    if !ctx.treasury.same_as(&ctx.config.treasury) {
        return Err(ErrorCode::InvalidTreasury);
    }
    if !(ctx.config.is_active && !ctx.config.is_paused) {
        return Err(ErrorCode::ConfigInactive);
    }
    if ctx.delivery.status != DeliveryStatus::InProgress {
        return Err(ErrorCode::InvalidDeliveryStatus);
    }
    let assigned = match ctx.delivery.assigned_vehicle {
        Some(v) => v.same_as(&ctx.vehicle_key),
        None => false,
    };
    if !assigned {
        return Err(ErrorCode::Unauthorized);
    }
    let amount = ctx.delivery.payment_amount;
    let (fee, vehicle_payment) = match compute_fee_split(amount, ctx.config.fee_bps) {
        Ok(split) => split,
        Err(e) => {
            return Err(e);
        },
    };
    if ctx.escrow.balance < amount {
        return Err(ErrorCode::MathOverflow);
    }
    let operator_lamports = match ctx.operator_lamports.checked_add(vehicle_payment) {
        Some(v) => v,
        None => {
            return Err(ErrorCode::MathOverflow);
        },
    };
    let treasury_lamports = match ctx.treasury_lamports.checked_add(fee) {
        Some(v) => v,
        None => {
            return Err(ErrorCode::MathOverflow);
        },
    };
    let total_deliveries = match ctx.vehicle.total_deliveries.checked_add(1) {
        Some(v) => v,
        None => {
            return Err(ErrorCode::MathOverflow);
        },
    };
    ctx.escrow.balance = ctx.escrow.balance - vehicle_payment;
    ctx.operator_lamports = operator_lamports;
    ctx.escrow.balance = ctx.escrow.balance - fee;
    ctx.treasury_lamports = treasury_lamports;
    ctx.delivery.status = DeliveryStatus::Completed;
    ctx.delivery.completed_at = Some(now);
    ctx.vehicle.is_busy = false;
    ctx.vehicle.total_deliveries = total_deliveries;
    Ok(())
}

} // verus!
