//! Access to the peripherals: who may touch which registers, and how the
//! fields of a register are read and written.

pub mod atsamd11c14a;
pub mod bkupcfg;
pub mod chstatus;
pub mod generic;
