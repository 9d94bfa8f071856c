//! Flight-control core: fixed-point control loops, actuator mixing, the motor
//! command protocol and the arming state machine.

pub mod fixed;
pub mod pid;
pub mod flight_ctrls;
pub mod protocols;
pub mod safety;
pub mod autopilot;
pub mod control_interface;
pub mod state;
pub mod drivers;
pub mod cfg_storage;
