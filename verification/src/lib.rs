//! Background controller logic that keeps a device's CPU frequency caps and
//! thermal-management profile in sync with a single user-configurable mode.
//!
//! The library holds everything that can be decided without touching the
//! system: resolving a raw configuration value to a [`mode::Mode`], the
//! catalog of control-file writes each mode requires, the write-by-write
//! bookkeeping of one application attempt, and the controller's memory of the
//! last fully applied mode. The surrounding process performs the actual
//! property lookup and control-file writes and reports their outcomes back.

pub mod applier;
pub mod controller;
pub mod mode;
pub mod profile;
