//! Target-side support for driving a simulated processor core from a
//! remote-debugging protocol engine: a fixed-size register-file model with
//! its exact wire serialization, a mapper from the simulator's resource
//! names to register slots, and the pure decision logic of the byte
//! transport bridge.

pub mod adapter;
pub mod registers;
pub mod regmap;
pub mod transport;
