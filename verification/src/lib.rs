//! The logic of a CAN node that drives valves, heating pads and high current outputs.
//!
//! The node is configured over the bus ([`config`], [`can::sdo`]), keeps what it knows in one
//! [`store`], decides what its outputs do once per tick ([`control`]) and broadcasts what it sees
//! ([`can::tpdo`]). Everything here computes on plain values; peripherals, clocks and tasks are the
//! caller's.
pub mod arith;
pub mod board;
pub mod bytes;
pub mod can;
pub mod can_do_id;
pub mod canopen_interface;
pub mod command_listener;
pub mod config;
pub mod control;
pub mod control_laws;
pub mod cpu;
pub mod ereg;
pub mod errors;
pub mod ext_adc;
pub mod hco;
pub mod heater;
pub mod heating;
pub mod high_current_out;
pub mod index;
pub mod leds;
pub mod node;
pub mod outputs;
pub mod proto;
pub mod rail_sense;
pub mod relief;
pub mod safety;
pub mod sensors;
pub mod store;
pub mod time;
pub mod valves;
