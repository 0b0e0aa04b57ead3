//! A minimal cooperative scheduling kernel: it registers compiled sandbox
//! modules, dispatches fuel-bounded processes against them, and keeps
//! per-process lifecycle timing records.

pub mod clock;
pub mod collatz;
pub mod dispatch;
pub mod errors;
pub mod lunatic;
pub mod registry;
pub mod sandbox;
pub mod shared_map;
pub mod tracker;
