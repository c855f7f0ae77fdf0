//! Validation and persistence core of a newspaper subscription service.
//!
//! Domain values are built through checked constructors, records arrive in an
//! unchecked shape and become domain objects only after their invariants hold
//! against the host's state (current time, stored records, configuration).
pub mod calendar;
pub mod delivery;
pub mod host;
pub mod json;
pub mod msgs;
pub mod newspaper;
pub mod order;
pub mod record;
pub mod response;
pub mod services;
pub mod signature;
pub mod storage;
