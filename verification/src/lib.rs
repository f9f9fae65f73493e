//! Downlink transmit path of a LoRa concentrator daemon: a time-ordered
//! transmit queue on the concentrator's wrapping tick counter, the validation
//! of downlink requests against the radio configuration, and the decisions of
//! the scheduler and command loops.

pub mod status;
pub mod tick;
pub mod packet;
pub mod queue;
pub mod gateway;
pub mod downlink;
pub mod jit;
pub mod command;
