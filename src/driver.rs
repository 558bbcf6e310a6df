//! The module's state between ticks: its template and the latest snapshot.
use crate::stats::{label_text, refresh_step, zero_stats, AmdGPUStats, SensorError, SensorReadings};
use vstd::prelude::*;
use vstd::string::*;

verus! {

/// Milliseconds between two refreshes when none is configured.
pub const DEFAULT_INTERVAL_MILLIS: u64 = 1000;

/// The template used when none is configured.
pub open spec fn default_format() -> Seq<char> {
    "{gpu_usage_percent}%"@
}

/// The module's settings; each one may be left out.
#[derive(Debug, Clone)]
pub struct Config {
    /// The label template.
    pub format: Option<String>,
    /// The index of the GPU among all enumerated handles.
    pub gpu_idx: Option<usize>,
    /// Milliseconds between two refreshes.
    pub interval_millis: Option<u64>,
}

impl Config {
    /// The configured template, or `{gpu_usage_percent}%`.
    pub fn format_string(&self) -> (r: String)
        ensures
            r@ == (match self.format {
                Some(f) => f@,
                None => default_format(),
            }),
    {
        match &self.format {
            Some(f) => f.clone(),
            None => String::from_str("{gpu_usage_percent}%"),
        }
    }

    /// The configured GPU index, or 0.
    pub fn gpu_index(&self) -> (r: usize)
        ensures
            r == (match self.gpu_idx {
                Some(i) => i,
                None => 0,
            }),
    {
        match self.gpu_idx {
            Some(i) => i,
            None => 0,
        }
    }

    /// The configured refresh period in milliseconds, or one second.
    pub fn interval(&self) -> (r: u64)
        ensures
            r == (match self.interval_millis {
                Some(m) => m,
                None => DEFAULT_INTERVAL_MILLIS,
            }),
    {
        match self.interval_millis {
            Some(m) => m,
            None => DEFAULT_INTERVAL_MILLIS,
        }
    }
}

/// A running module: the template it renders and the snapshot it renders from.
pub struct WaybarGpuModule {
    /// The latest values read.
    pub stats: AmdGPUStats,
    /// The label template.
    pub format: String,
}

impl WaybarGpuModule {
    /// Starts a module: a snapshot refreshed from `readings`, and the
    /// configured template.
    pub fn init(config: &Config, readings: &SensorReadings) -> (r: Result<Self, SensorError>)
        ensures
            r is Ok <==> refresh_step(zero_stats(), *readings).1 is Ok,
            r is Ok ==> r->Ok_0.stats == refresh_step(zero_stats(), *readings).0,
            r is Ok ==> r->Ok_0.format@ == (match config.format {
                Some(f) => f@,
                None => default_format(),
            }),
            r is Err ==> r->Err_0 == refresh_step(zero_stats(), *readings).1->Err_0,
    {
        let stats = AmdGPUStats::from_gpu_handle(readings)?;
        Ok(WaybarGpuModule { stats, format: config.format_string() })
    }

    /// The label for the current snapshot.
    pub fn label(&self) -> (r: String)
        ensures
            r@ == label_text(self.stats, self.format@),
    {
        self.stats.build_label_string(self.format.as_str())
    }

    /// One tick: refreshes the snapshot from `readings`, then renders the label.
    pub fn tick(&mut self, readings: &SensorReadings) -> (r: Result<String, SensorError>)
        ensures
            final(self).stats == refresh_step(old(self).stats, *readings).0,
            final(self).format@ == old(self).format@,
            r is Ok <==> refresh_step(old(self).stats, *readings).1 is Ok,
            r is Ok ==> r->Ok_0@ == label_text(final(self).stats, final(self).format@),
            r is Err ==> r->Err_0 == refresh_step(old(self).stats, *readings).1->Err_0,
    {
        self.stats.update_all_sensors(readings)?;
        Ok(self.label())
    }
}

} // verus!
