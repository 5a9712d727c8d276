//! Remote procedure calls to the wireless companion chip.

pub mod sys_rpcs;
