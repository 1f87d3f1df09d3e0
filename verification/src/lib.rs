//! Account-wide usage limits: reading what the service reports, deciding when
//! it may be asked again, and keeping what it said in files that many
//! short-lived processes share.

pub mod account;
pub mod cache;
pub mod calendar;
pub mod fetch_lock;
pub mod paths;
pub mod state_file;
pub mod text;
pub mod timestamp;
pub mod usage_laws;
pub mod usage_limits;
pub mod usage_limits_state;
