use vstd::prelude::*;
use vstd::utf8::encode_utf8;

use crate::identity::Identity;

verus! {

/// Longest vehicle identifier, in bytes.
pub const MAX_VEHICLE_ID_LEN: usize = 32;

/// Longest location text, in bytes.
pub const MAX_LOCATION_LEN: usize = 64;

/// Basis points in a whole (100%).
pub const BPS_DENOMINATOR: u64 = 10000;

/// Length of a string in UTF-8 bytes.
pub open spec fn byte_len(s: String) -> nat {
    encode_utf8(s@).len()
}

/// The platform-wide settings, created once by the platform authority.
#[derive(Clone, Copy, Debug)]
pub struct Config {
    pub authority: Identity,
    pub is_active: bool,
    pub is_paused: bool,
    /// Platform fee in basis points of each payment.
    pub fee_bps: u16,
    /// Where platform fees are paid.
    pub treasury: Identity,
    pub version: u8,
}

impl Config {
    /// The fee rate is at most 100%.
    pub open spec fn wf(self) -> bool {
        self.fee_bps <= BPS_DENOMINATOR
    }

    /// Operations other than initialization are admitted.
    pub open spec fn accepting(self) -> bool {
        self.is_active && !self.is_paused
    }
}

/// A registered autonomous vehicle.
#[derive(Clone, Debug)]
pub struct Vehicle {
    pub vehicle_id: String,
    pub operator: Identity,
    pub location: String,
    pub is_active: bool,
    pub is_busy: bool,
    pub total_deliveries: u64,
    pub registered_at: i64,
}

impl Vehicle {
    pub open spec fn wf(self) -> bool {
        &&& self.is_busy ==> self.is_active
        &&& byte_len(self.vehicle_id) <= MAX_VEHICLE_ID_LEN
        &&& byte_len(self.location) <= MAX_LOCATION_LEN
    }

    /// Free to take a new order.
    pub open spec fn available(self) -> bool {
        self.is_active && !self.is_busy
    }
}

/// Where an order stands in its lifecycle.
#[derive(PartialEq, Eq, Structural, Clone, Copy, Debug)]
pub enum DeliveryStatus {
    Pending,
    InProgress,
    Completed,
    /// Reserved: no operation moves an order here.
    Cancelled,
}

/// One customer order.
#[derive(Clone, Debug)]
pub struct Delivery {
    pub delivery_id: u64,
    pub customer: Identity,
    pub payment_amount: u64,
    pub pickup_location: String,
    pub delivery_location: String,
    pub status: DeliveryStatus,
    /// The record address of the vehicle bound to the order.
    pub assigned_vehicle: Option<Identity>,
    pub created_at: i64,
    pub accepted_at: Option<i64>,
    pub completed_at: Option<i64>,
}

impl Delivery {
    pub open spec fn wf(self) -> bool {
        &&& self.payment_amount > 0
        &&& byte_len(self.pickup_location) <= MAX_LOCATION_LEN
        &&& byte_len(self.delivery_location) <= MAX_LOCATION_LEN
        &&& (self.assigned_vehicle is Some <==> (self.status == DeliveryStatus::InProgress
            || self.status == DeliveryStatus::Completed))
        &&& (self.accepted_at is Some <==> self.assigned_vehicle is Some)
        &&& (self.completed_at is Some <==> self.status == DeliveryStatus::Completed)
    }

    /// The order is bound to the vehicle whose record address is `key`.
    pub open spec fn assigned_to(self, key: Identity) -> bool {
        match self.assigned_vehicle {
            Some(v) => v@ == key@,
            None => false,
        }
    }
}

/// The balance held for one order between creation and completion.
#[derive(Clone, Copy, Debug)]
pub struct Escrow {
    pub balance: u64,
}

/// Why an operation was refused.
#[derive(PartialEq, Eq, Structural, Clone, Copy, Debug)]
pub enum ErrorCode {
    MathOverflow,
    ConfigInactive,
    InvalidAmount,
    InvalidParameter,
    VehicleNotAvailable,
    InvalidDeliveryStatus,
    Unauthorized,
    InvalidTreasury,
    /// The record to be created already exists.
    AlreadyInitialized,
    /// The payer's balance does not cover the amount.
    InsufficientFunds,
}

impl ErrorCode {
    /// A short human-readable description.
    pub fn message(&self) -> &'static str {
        match self {
            ErrorCode::MathOverflow => "Math overflow occurred",
            ErrorCode::ConfigInactive => "Config is inactive",
            ErrorCode::InvalidAmount => "Invalid amount",
            ErrorCode::InvalidParameter => "Invalid parameter",
            ErrorCode::VehicleNotAvailable => "Vehicle not available",
            ErrorCode::InvalidDeliveryStatus => "Invalid delivery status",
            ErrorCode::Unauthorized => "Unauthorized access",
            ErrorCode::InvalidTreasury => "Invalid treasury",
            ErrorCode::AlreadyInitialized => "Account already initialized",
            ErrorCode::InsufficientFunds => "Insufficient funds",
        }
    }
}

} // verus!
