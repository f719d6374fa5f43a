//! Data that travels beside an execution payload across protocol upgrades, and the handle
//! on the KZG trusted setup against which blob commitments are verified.
//!
//! Every type has a mathematical model, given by `deep_view`, and the contracts of the
//! functions are stated over these models.

pub mod amsterdam;
pub mod cancun;
pub mod digest;
pub mod env_settings;
pub mod prague;
pub mod requests;
pub mod sidecar;

pub use amsterdam::AmsterdamPayloadFields;
pub use amsterdam::MaybeAmsterdamPayloadFields;
pub use cancun::CancunPayloadFields;
pub use cancun::MaybeCancunPayloadFields;
pub use env_settings::EnvKzgSettings;
pub use prague::MaybePraguePayloadFields;
pub use prague::PraguePayloadFields;
pub use requests::Requests;
pub use requests::RequestsOrHash;
pub use sidecar::BlockFields;
pub use sidecar::ExecutionPayloadSidecar;
