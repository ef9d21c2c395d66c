//! Command Processor registers.
pub mod xf_clks_l;
