//! Bridges gamepad input to the articulation parameters of a vocal-tract
//! synthesiser.
//!
//! Every physical quantity is held in fixed point: raw parameter values are
//! counted in millionths of their physical unit, and normalised values in
//! millionths of a parameter's range (`UNIT` stands for `1.0`).
pub mod vtl;
pub mod store;
pub mod controller;
pub mod engine;
