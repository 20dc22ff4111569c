//! Control core for a small single-board microcontroller setup.
//!
//! The crate holds the board-independent logic of the system: the shared
//! delay cell that the button task writes and the blinker task reads, the
//! edge-event state machine behind the button interrupt, the periodic
//! actuator's timing, calibrated analog-to-millivolt conversion, fractional
//! PWM duty commands, buffer-complete serial transfers, and the fixed-capacity
//! status-message frame. Register access, pin setup and the executor itself
//! are left to a thin platform shell; every function here carries a contract
//! and is verified against it.

pub mod actuator;
pub mod control;
pub mod edge;
pub mod frame;
pub mod pwm;
pub mod sampler;
pub mod serial;
pub mod state_cell;
