//! Verified core of QuadBench, a virtual quadcopter hardware bench around
//! Betaflight SITL: the SITL wire formats, the decisions of the SITL bridge,
//! the Configurator proxy and the physics worker, the controller input and
//! Pocket channel mapping, and the bench state and its link logic.
pub mod bench;
pub mod bridge;
pub mod input;
pub mod physics;
pub mod protocol;
pub mod proxy;
pub mod state;
pub mod transport;
pub mod ui;
