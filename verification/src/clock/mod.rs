//! The clock tree: clock sources, the count of those that depend on each, and
//! the handles of the generators and peripheral channels that they feed.

pub mod dfll;
pub mod gclk;
pub mod pclk;
pub mod types;
