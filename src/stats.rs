//! The snapshot of one GPU's metrics, its refresh rules and its label.
use crate::decimal::{dec_digits, digit_char, push_decimal, push_two_digits, signed_dec, two_digits, u64_to_dec, i64_to_dec, digit_str};
use crate::template::{lemma_replace_all_no_occurrence, occurs_at, replace_all, replace_text};
use crate::units::{format_iec, iec_text};
use vstd::prelude::*;
use vstd::string::*;

verus! {

/// Why a refresh could not complete.
#[derive(Debug, Clone, Copy, PartialEq, Eq, Structural)]
pub enum SensorError {
    /// The total VRAM could not be read.
    MemTotal,
    /// The used VRAM could not be read.
    MemUsage,
    /// The backend reported more VRAM in use than there is.
    MemUsedExceedsTotal,
    /// The graphics activity could not be read.
    Activity,
    /// The hotspot temperature could not be read.
    Temperature,
}

/// What one poll of the backend returned for each sensor; `None` where the read failed.
#[derive(Debug, Clone, Copy, PartialEq, Eq, Structural)]
pub struct SensorReadings {
    /// Graphics engine activity.
    pub gfx_activity: Option<u32>,
    /// Total VRAM in bytes.
    pub vram_total: Option<u64>,
    /// Used VRAM in bytes.
    pub vram_used: Option<u64>,
    /// Hotspot temperature in the backend's unit.
    pub hotspot_temp: Option<i64>,
}

/// The latest values read for one GPU.
#[derive(Debug, Clone, Copy, PartialEq, Eq, Structural)]
pub struct AmdGPUStats {
    /// Graphics engine activity, a percentage in the backend's range.
    pub gpu_usage: u32,
    /// Used VRAM in bytes.
    pub mem_used: u64,
    /// The share of VRAM in use, in whole percentage points (so 25 stands for
    /// the ratio 0.25); `None` when the total is zero and the ratio is undefined.
    pub mem_used_percent: Option<u64>,
    /// Total VRAM in bytes.
    pub mem_total: u64,
    /// Free VRAM in bytes.
    pub mem_free: u64,
    /// Hotspot temperature in the backend's unit.
    pub gpu_temp: i64,
}

/// `used / total` as a percentage rounded to the nearest whole point, halves up.
pub open spec fn percent_of(used: nat, total: nat) -> Option<u64> {
    if total == 0 {
        None
    } else {
        Some(((200 * used + total) / (2 * total)) as u64)
    }
}

/// The snapshot before anything was read.
pub open spec fn zero_stats() -> AmdGPUStats {
    AmdGPUStats {
        gpu_usage: 0,
        mem_used: 0,
        mem_used_percent: Some(0),
        mem_total: 0,
        mem_free: 0,
        gpu_temp: 0,
    }
}

/// The snapshot `s` with a consistent memory reading stored.
pub open spec fn with_memory(s: AmdGPUStats, total: u64, used: u64) -> AmdGPUStats {
    AmdGPUStats {
        mem_used: used,
        mem_total: total,
        mem_free: (total - used) as u64,
        mem_used_percent: percent_of(used as nat, total as nat),
        ..s
    }
}

/// The outcome of refreshing the memory fields of `s`.
pub open spec fn memory_step(s: AmdGPUStats, total: Option<u64>, used: Option<u64>) -> (AmdGPUStats, Result<(), SensorError>) {
    match (total, used) {
        (None, _) => (s, Err(SensorError::MemTotal)),
        (Some(_), None) => (s, Err(SensorError::MemUsage)),
        (Some(t), Some(u)) => if u <= t {
            (with_memory(s, t, u), Ok(()))
        } else {
            (s, Err(SensorError::MemUsedExceedsTotal))
        },
    }
}

/// The outcome of refreshing the activity of `s`.
pub open spec fn usage_step(s: AmdGPUStats, activity: Option<u32>) -> (AmdGPUStats, Result<(), SensorError>) {
    match activity {
        Some(a) => (AmdGPUStats { gpu_usage: a, ..s }, Ok(())),
        None => (s, Err(SensorError::Activity)),
    }
}

/// The outcome of refreshing the temperature of `s`.
pub open spec fn temp_step(s: AmdGPUStats, temp: Option<i64>) -> (AmdGPUStats, Result<(), SensorError>) {
    match temp {
        Some(t) => (AmdGPUStats { gpu_temp: t, ..s }, Ok(())),
        None => (s, Err(SensorError::Temperature)),
    }
}

/// The outcome of a full refresh: memory, then activity, then temperature,
/// stopping at the first failure with what was stored before it kept.
pub open spec fn refresh_step(s: AmdGPUStats, r: SensorReadings) -> (AmdGPUStats, Result<(), SensorError>) {
    let m = memory_step(s, r.vram_total, r.vram_used);
    if m.1.is_err() {
        m
    } else {
        let u = usage_step(m.0, r.gfx_activity);
        if u.1.is_err() {
            u
        } else {
            temp_step(u.0, r.hotspot_temp)
        }
    }
}

/// Refreshing twice from the same readings leaves the same snapshot, and the
/// same outcome, as refreshing once.
pub proof fn lemma_refresh_idempotent(s: AmdGPUStats, r: SensorReadings)
    ensures
        refresh_step(refresh_step(s, r).0, r) == refresh_step(s, r),
{
}

/// The text of a share of VRAM in use: the ratio with its trailing zeros
/// dropped (`0.25`, `0.3`, `1`, `0`), or `NaN` when it is undefined.
pub open spec fn percent_text(p: Option<u64>) -> Seq<char> {
    match p {
        None => seq!['N', 'a', 'N'],
        Some(n) => if n % 100 == 0 {
            dec_digits((n / 100) as nat)
        } else if n % 10 == 0 {
            dec_digits((n / 100) as nat) + seq!['.', digit_char(((n % 100) / 10) as nat)]
        } else {
            dec_digits((n / 100) as nat) + seq!['.'] + two_digits((n % 100) as nat)
        },
    }
}

/// The label for snapshot `s` and template `f`: each placeholder replaced in turn.
pub open spec fn label_text(s: AmdGPUStats, f: Seq<char>) -> Seq<char> {
    let t1 = replace_all(f, "{gpu_usage_percent}"@, dec_digits(s.gpu_usage as nat));
    let t2 = replace_all(t1, "{gpu_mem_total}"@, iec_text(s.mem_total as nat));
    let t3 = replace_all(t2, "{gpu_mem_used}"@, iec_text(s.mem_used as nat));
    let t4 = replace_all(t3, "{gpu_mem_used_percent}"@, percent_text(s.mem_used_percent));
    let t5 = replace_all(t4, "{gpu_mem_free}"@, iec_text(s.mem_free as nat));
    let t6 = replace_all(t5, "{gpu_usage}"@, dec_digits(s.gpu_usage as nat));
    replace_all(t6, "{gpu_temp}"@, signed_dec(s.gpu_temp as int))
}

/// The placeholders a template may hold, in the order they are substituted.
pub open spec fn placeholders() -> Seq<Seq<char>> {
    seq![
        "{gpu_usage_percent}"@,
        "{gpu_mem_total}"@,
        "{gpu_mem_used}"@,
        "{gpu_mem_used_percent}"@,
        "{gpu_mem_free}"@,
        "{gpu_usage}"@,
        "{gpu_temp}"@,
    ]
}

/// A template in which no placeholder occurs renders as itself, whatever the
/// snapshot: text that only looks like a placeholder is never touched.
pub proof fn lemma_label_without_placeholders(s: AmdGPUStats, f: Seq<char>)
    requires
        forall|k: int, i: int| 0 <= k < 7 ==> !#[trigger] occurs_at(f, placeholders()[k], i),
    ensures
        label_text(s, f) == f,
{
    let ps = placeholders();
    lemma_replace_all_no_occurrence(f, ps[0], dec_digits(s.gpu_usage as nat));
    lemma_replace_all_no_occurrence(f, ps[1], iec_text(s.mem_total as nat));
    lemma_replace_all_no_occurrence(f, ps[2], iec_text(s.mem_used as nat));
    lemma_replace_all_no_occurrence(f, ps[3], percent_text(s.mem_used_percent));
    lemma_replace_all_no_occurrence(f, ps[4], iec_text(s.mem_free as nat));
    lemma_replace_all_no_occurrence(f, ps[5], dec_digits(s.gpu_usage as nat));
    lemma_replace_all_no_occurrence(f, ps[6], signed_dec(s.gpu_temp as int));
}

/// Renders a share of VRAM in use as [`percent_text`] describes.
pub fn percent_to_string(p: Option<u64>) -> (r: String)
    ensures
        r@ == percent_text(p),
{
    proof {
        reveal_strlit("NaN");
        reveal_strlit(".");
    }
    match p {
        None => String::from_str("NaN"),
        Some(n) => {
            let mut out = String::new();
            push_decimal(&mut out, n / 100);
            if n % 100 == 0 {
            } else if n % 10 == 0 {
                out.append(".");
                out.append(digit_str((n % 100) / 10));
            } else {
                out.append(".");
                push_two_digits(&mut out, n % 100);
            }
            assert(out@ =~= percent_text(p));
            out
        },
    }
}

impl AmdGPUStats {
    /// The consistency of the memory fields.
    pub open spec fn wf(&self) -> bool {
        self.mem_used <= self.mem_total && self.mem_free == self.mem_total - self.mem_used
    }

    /// A snapshot with every metric at zero.
    pub fn zeroed() -> (r: Self)
        ensures
            r == zero_stats(),
            r.wf(),
    {
        AmdGPUStats {
            gpu_usage: 0,
            mem_used: 0,
            mem_used_percent: Some(0),
            mem_total: 0,
            mem_free: 0,
            gpu_temp: 0,
        }
    }

    /// Builds a snapshot from zero and refreshes every metric from `readings`.
    pub fn from_gpu_handle(readings: &SensorReadings) -> (r: Result<Self, SensorError>)
        ensures
            refresh_step(zero_stats(), *readings).1 is Ok <==> r is Ok,
            r is Ok ==> r->Ok_0 == refresh_step(zero_stats(), *readings).0 && r->Ok_0.wf(),
            r is Err ==> r == Err::<Self, SensorError>(refresh_step(zero_stats(), *readings).1->Err_0),
    {
        let mut stats = Self::zeroed();
        match stats.update_all_sensors(readings) {
            Ok(()) => Ok(stats),
            Err(e) => Err(e),
        }
    }

    /// Stores the graphics activity, or fails when it could not be read.
    pub fn update_gpu_usage(&mut self, activity: Option<u32>) -> (r: Result<(), SensorError>)
        ensures
            (*final(self), r) == usage_step(*old(self), activity),
    {
        match activity {
            Some(a) => {
                self.gpu_usage = a;
                Ok(())
            },
            None => Err(SensorError::Activity),
        }
    }

    /// Stores a VRAM reading: used and total bytes, the free bytes, and the
    /// share in use rounded to whole percentage points. Fails, leaving the
    /// snapshot as it was, when a value is missing or more is used than there is.
    pub fn update_gpu_mem_info(&mut self, total: Option<u64>, used: Option<u64>) -> (r: Result<(), SensorError>)
        ensures
            (*final(self), r) == memory_step(*old(self), total, used),
            r is Ok ==> final(self).wf(),
            r is Ok ==> final(self).mem_free == final(self).mem_total - final(self).mem_used,
            r is Err ==> *final(self) == *old(self),
    {
        let t = match total {
            Some(t) => t,
            None => return Err(SensorError::MemTotal),
        };
        let u = match used {
            Some(u) => u,
            None => return Err(SensorError::MemUsage),
        };
        if u > t {
            return Err(SensorError::MemUsedExceedsTotal);
        }
        self.mem_used = u;
        self.mem_total = t;
        self.mem_used_percent = if t == 0 {
            None
        } else {
            let num: u128 = 200 * (u as u128) + t as u128;
            let den: u128 = 2 * (t as u128);
            proof {
                vstd::arithmetic::div_mod::lemma_div_is_ordered(num as int, 202 * t as int, den as int);
                vstd::arithmetic::div_mod::lemma_div_by_multiple(101, den as int);
                assert(202 * t as int == 101 * den as int);
            }
            Some((num / den) as u64)
        };
        self.mem_free = t - u;
        Ok(())
    }

    /// Stores the hotspot temperature, or fails when it could not be read.
    pub fn update_gpu_temp_info(&mut self, temp: Option<i64>) -> (r: Result<(), SensorError>)
        ensures
            (*final(self), r) == temp_step(*old(self), temp),
    {
        match temp {
            Some(t) => {
                self.gpu_temp = t;
                Ok(())
            },
            None => Err(SensorError::Temperature),
        }
    }

    /// Refreshes memory, activity and temperature in that order; the first
    /// failure ends the refresh, keeping what was stored before it.
    pub fn update_all_sensors(&mut self, readings: &SensorReadings) -> (r: Result<(), SensorError>)
        ensures
            (*final(self), r) == refresh_step(*old(self), *readings),
            old(self).wf() ==> final(self).wf(),
    {
        self.update_gpu_mem_info(readings.vram_total, readings.vram_used)?;
        self.update_gpu_usage(readings.gfx_activity)?;
        self.update_gpu_temp_info(readings.hotspot_temp)
    }

    /// Substitutes the metrics into every placeholder of `format_string`;
    /// other text, unknown placeholders included, is kept as it is.
    pub fn build_label_string(&self, format_string: &str) -> (r: String)
        ensures
            r@ == label_text(*self, format_string@),
    {
        let usage = u64_to_dec(self.gpu_usage as u64);
        let t1 = replace_text(format_string, "{gpu_usage_percent}", usage.as_str());
        let t2 = replace_text(t1.as_str(), "{gpu_mem_total}", format_iec(self.mem_total).as_str());
        let t3 = replace_text(t2.as_str(), "{gpu_mem_used}", format_iec(self.mem_used).as_str());
        let t4 = replace_text(t3.as_str(), "{gpu_mem_used_percent}", percent_to_string(self.mem_used_percent).as_str());
        let t5 = replace_text(t4.as_str(), "{gpu_mem_free}", format_iec(self.mem_free).as_str());
        let t6 = replace_text(t5.as_str(), "{gpu_usage}", usage.as_str());
        replace_text(t6.as_str(), "{gpu_temp}", i64_to_dec(self.gpu_temp).as_str())
    }
}

} // verus!
