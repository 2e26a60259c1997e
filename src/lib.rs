//! Escrowed delivery payments between customers and autonomous vehicle
//! operators, with a platform fee taken on completion.
//!
//! Every operation works on the records it is handed and, on failure, leaves
//! them exactly as they were.
mod fee;
mod identity;
mod instructions;
mod laws;
mod records;

pub use fee::{compute_fee_split, fee_of, lemma_fee_within_payment};
pub use identity::Identity;
pub use records::{
    byte_len, BPS_DENOMINATOR, Config, Delivery, DeliveryStatus, ErrorCode, Escrow,
    MAX_LOCATION_LEN, MAX_VEHICLE_ID_LEN, Vehicle,
};
pub use instructions::{
    accept_delivery, accept_outcome, complete_delivery, complete_outcome, create_delivery_order,
    create_outcome, initialize_config, initialize_outcome, register_outcome, register_vehicle,
    AcceptDelivery, CompleteDelivery, CreateDeliveryOrder, InitializeConfig, RegisterVehicle,
};
pub use laws::{
    lemma_accept_preserves_wf, lemma_accept_status_step, lemma_accepted_vehicle_stays_taken,
    lemma_busy_vehicle_refused, lemma_complete_preserves_wf, lemma_complete_status_step,
    lemma_completion_by_other_vehicle_refused, lemma_completion_fee_in_range,
    lemma_completion_frees_vehicle, lemma_completion_splits_payment,
    lemma_completion_wrong_treasury_refused, lemma_create_wf, lemma_initialize_wf,
    lemma_register_wf,
};
