//! What each kind of instruction does to the machine.

pub mod near_call;
pub mod pointer;
pub mod precompiles;
pub mod ret;
