//! Verified control core of a two-wheeled robot that follows a line on the
//! floor with reflectance sensors and carries a lift.
//!
//! # Numbers
//!
//! Speeds, controller gains and sensor levels are fixed-point numbers:
//! integers that count millionths, so that [`SCALE`] stands for one. Every
//! rule in this crate is exact integer arithmetic; products and quotients of
//! fixed-point numbers are rounded toward zero. A value that comes from
//! outside as a fraction is turned into its count before it is handed in.
//!
//! # Time
//!
//! Time is a count of nanoseconds on a monotonic clock. Whatever depends on
//! time takes the clock reading as an argument, so that its contract says
//! what happens at which moment; [`time::Clock`] reads the clock.
//!
//! # State machines
//!
//! The operations that run on ([`actor::Actor`], [`demo::DemoScript`]) are
//! state machines: they take in one event at a time and answer with the
//! effects that their shell is to carry out on the hardware. The hardware
//! itself is reached through the capabilities in [`interfaces`].
//!
//! # What is taken on trust
//!
//! The random draw of the first centroids in [`calibration::kmeans`] and the
//! clock behind [`time::Clock`] are not verified; all else is.

pub mod acceleration;
pub mod actor;
pub mod calibration;
pub mod command;
pub mod consts;
pub mod demo;
pub mod directions;
pub mod effect;
pub mod error;
pub mod event_list;
pub mod fixed;
pub mod history;
pub mod interfaces;
pub mod keyboard;
pub mod line;
pub mod logbot;
pub mod oscillate;
pub mod pwm;
pub mod speed;
pub mod time;
pub mod vehicle;

pub use actor::Actor;
pub use calibration::{SensorCalibration, SingleSensorCalibration};
pub use command::{Command, CommandDenied, CommandResult};
pub use directions::{MotorDirection, SpinDirection, Stop, VehicleDirection};
pub use effect::Effect;
pub use fixed::SCALE;
pub use line::{FollowLineConfig, FollowLineState};
pub use oscillate::{ActiveOscillation, Oscillate};
pub use speed::{Speed, SpeedControl};
