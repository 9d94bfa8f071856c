//! Flight controls: what is common to every airframe, and the mixers of each.

pub mod common;
pub mod quad;
pub mod flying_wing;
pub mod ctrl_logic;
