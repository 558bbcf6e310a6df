//! Sampling and labelling of GPU telemetry for a status bar.
pub mod decimal;
pub mod units;
pub mod template;
pub mod stats;
pub mod resolver;
pub mod driver;

pub use driver::{Config, WaybarGpuModule};
pub use resolver::{select_gpu_handle, ResolveError};
pub use stats::{AmdGPUStats, SensorError, SensorReadings};
pub use units::format_iec;
