//! The simulated hardware state shown on the bench: system, receiver, GPS
//! and motors.
pub mod gps;
pub mod motor;
pub mod receiver;
pub mod system;
