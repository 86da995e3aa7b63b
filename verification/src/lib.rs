//! Closed-loop vehicle simulation and state estimation.
//!
//! The crate models a wheeled vehicle with a discrete-time kinematic bicycle
//! model, simulates noisy sensors (GPS, inertial unit, wheel encoder) that
//! observe the ground-truth state, and fuses model predictions with sensor
//! observations in an extended Kalman filter.
//!
//! All physical quantities are carried as fixed-point integers: one unit
//! (metre, radian, second, ...) is `fixed::SCALE` ticks.  This keeps every
//! computation exact and deterministic, so each function's contract states
//! the result of a call precisely.

pub mod car;
pub mod encoder;
pub mod error;
pub mod fixed;
pub mod gps;
pub mod imu;
pub mod kalman_filter;
pub mod matrix;
pub mod noise;
pub mod sensor_measurement;
pub mod session;
pub mod state;
pub mod trig;
