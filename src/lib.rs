//! A name registry: names map to owning identities, each identity may carry
//! one primary name, and registration fees are settled in a native unit or
//! in an external fungible asset with an optional referrer split.
//!
//! The registry is a plain state machine. The host passes in who calls,
//! what was attached and the time, and carries out the transfers and
//! publishes the events that each operation hands back. A registration paid
//! in an asset reserves its name, asks for the transfer, and is committed or
//! rolled back by [`NameRegistry::ft_transfer_callback`] once the transfer
//! has settled.

pub mod admin;
pub mod crypto;
pub mod fees;
pub mod laws;
pub mod message;
pub mod meta;
pub mod name;
pub mod orchestrator;
pub mod registry;
pub mod store;
pub mod types;

pub use fees::{split_fee, BPS_DENOMINATOR};
pub use message::{create_registration_message, split_signature};
pub use name::{is_valid_name, MAX_NAME_LEN, MIN_NAME_LEN};
pub use registry::{NameRegistry, DEFAULT_REFERRER_BPS};
pub use types::{Effects, ErrorCode, Event, Payout, PendingRegistration, Record, RegisterWithSigParams};
