//! A recurring, permissionless token-emission cycle: participants register
//! during a fixed-length mining window, then withdraw a pro-rata share of a
//! fixed emission pool during a following claim window, after which the
//! cycle resets.

pub mod emission;
pub mod platform;
pub mod state;
