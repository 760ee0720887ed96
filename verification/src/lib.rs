//! Verified core of a desktop monitoring dashboard: the registry of watched
//! services, the probe plans and the statuses built from their outcomes, the
//! application settings, the Home Assistant request shapes, the CPU sensor
//! choice and the power commands.

pub mod text;
pub mod service;
pub mod http_status;
pub mod status;
pub mod settings;
pub mod home_assistant;
pub mod sensor;
pub mod power;
