//! Game-controller input: the devices and controls the bench sees, the raw
//! control store, and the RadioMaster Pocket channel mapping.
pub mod controller;
pub mod pocket;
pub mod raw_controls;
