//! DVD Interface registers.
pub mod command_buffer0;
pub mod immediate_buffer;
pub mod status;
