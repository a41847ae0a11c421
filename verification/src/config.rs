//! Configuration model and in-tick sanitisation.
//!
//! Sanitisation is deterministic, so the controller keeps ticking safely when
//! part of its configuration is invalid: every out-of-range value is replaced
//! by its default, and the replacement is flagged.
use vstd::prelude::*;

verus! {

/// Controller configuration. Temperatures are in milli-degrees Celsius and
/// voltages in millivolts.
#[derive(Debug, Clone, Copy, PartialEq, Eq, Structural)]
pub struct Config {
    pub preheat_ms: u32,
    pub ignition_window_ms: u32,
    pub flame_stabilise_ms: u32,
    pub retry_purge_ms: u32,
    pub cooldown_ms: u32,
    pub max_hx_temp_mc: i32,
    pub min_supply_mv: i32,
    pub min_run_ms: u32,
    pub min_off_ms: u32,
    pub setpoint_hysteresis_mc: i32,
    pub stage_low_delta_mc: i32,
    pub stage_medium_delta_mc: i32,
    pub stage_high_delta_mc: i32,
    pub boost_duration_ms: u32,
    pub has_flame_sensor: bool,
    pub has_overheat_cutoff: bool,
    pub has_fan_tach: bool,
    pub ignition_min_rise_mc: i32,
    pub ignition_min_abs_mc: i32,
    pub run_min_temp_mc: i32,
    pub flame_loss_ms: u32,
    pub fan_stall_min_rpm: u16,
    pub fan_stall_ms: u32,
}

/// A configuration after sanitisation, with a flag telling whether any
/// value had to be replaced by its default.
#[derive(Debug, Clone, Copy, PartialEq, Eq, Structural)]
pub struct SanitisedConfig {
    pub cfg: Config,
    pub used_defaults: bool,
}

/// `lo <= v <= hi`.
pub open spec fn within(v: int, lo: int, hi: int) -> bool {
    lo <= v && v <= hi
}

/// `v` when it lies in `[lo, hi]`, else `d`.
pub open spec fn within_or(v: int, lo: int, hi: int, d: int) -> int {
    if within(v, lo, hi) {
        v
    } else {
        d
    }
}


/// `v` when it lies in `[lo, hi]`, else `d`; and whether `d` was taken.
fn fit_u32(v: u32, lo: u32, hi: u32, d: u32) -> (r: (u32, bool))
    ensures
        r.0 == within_or(v as int, lo as int, hi as int, d as int),
        r.1 == !within(v as int, lo as int, hi as int),
{
    if lo <= v && v <= hi {
        (v, false)
    } else {
        (d, true)
    }
}

/// `v` when it lies in `[lo, hi]`, else `d`; and whether `d` was taken.
fn fit_i32(v: i32, lo: i32, hi: i32, d: i32) -> (r: (i32, bool))
    ensures
        r.0 == within_or(v as int, lo as int, hi as int, d as int),
        r.1 == !within(v as int, lo as int, hi as int),
{
    if lo <= v && v <= hi {
        (v, false)
    } else {
        (d, true)
    }
}

/// `v` when it lies in `[lo, hi]`, else `d`; and whether `d` was taken.
fn fit_u16(v: u16, lo: u16, hi: u16, d: u16) -> (r: (u16, bool))
    ensures
        r.0 == within_or(v as int, lo as int, hi as int, d as int),
        r.1 == !within(v as int, lo as int, hi as int),
{
    if lo <= v && v <= hi {
        (v, false)
    } else {
        (d, true)
    }
}

impl Config {
    /// The default configuration.
    pub open spec fn defaults() -> Config {
        Config {
            preheat_ms: 20_000,
            ignition_window_ms: 30_000,
            flame_stabilise_ms: 15_000,
            retry_purge_ms: 20_000,
            cooldown_ms: 90_000,
            max_hx_temp_mc: 230_000,
            min_supply_mv: 10_500,
            min_run_ms: 120_000,
            min_off_ms: 60_000,
            setpoint_hysteresis_mc: 500,
            stage_low_delta_mc: 300,
            stage_medium_delta_mc: 1_000,
            stage_high_delta_mc: 2_000,
            boost_duration_ms: 900_000,
            has_flame_sensor: false,
            has_overheat_cutoff: false,
            has_fan_tach: false,
            ignition_min_rise_mc: 8_000,
            ignition_min_abs_mc: 45_000,
            run_min_temp_mc: 40_000,
            flame_loss_ms: 10_000,
            fan_stall_min_rpm: 300,
            fan_stall_ms: 3_000,
        }
    }

    /// Every bounded field lies in its accepted range.
    pub open spec fn fields_in_range(self) -> bool {
        &&& within(self.preheat_ms as int, 50, 120_000)
        &&& within(self.ignition_window_ms as int, 50, 240_000)
        &&& within(self.flame_stabilise_ms as int, 50, 120_000)
        &&& within(self.retry_purge_ms as int, 50, 180_000)
        &&& within(self.cooldown_ms as int, 50, 600_000)
        &&& within(self.min_run_ms as int, 0, 3_600_000)
        &&& within(self.min_off_ms as int, 0, 3_600_000)
        &&& within(self.boost_duration_ms as int, 10_000, 86_400_000)
        &&& within(self.flame_loss_ms as int, 100, 600_000)
        &&& within(self.fan_stall_ms as int, 100, 60_000)
        &&& within(self.max_hx_temp_mc as int, 120_000, 350_000)
        &&& within(self.min_supply_mv as int, 6_000, 30_000)
        &&& within(self.setpoint_hysteresis_mc as int, 100, 5_000)
        &&& within(self.stage_low_delta_mc as int, 50, 10_000)
        &&& within(self.stage_medium_delta_mc as int, 50, 15_000)
        &&& within(self.stage_high_delta_mc as int, 50, 20_000)
        &&& within(self.ignition_min_rise_mc as int, 100, 100_000)
        &&& within(self.ignition_min_abs_mc as int, -20_000, 200_000)
        &&& within(self.run_min_temp_mc as int, -20_000, 200_000)
        &&& within(self.fan_stall_min_rpm as int, 50, 20_000)
    }

    /// Each bounded field, replaced by its default where out of range.
    pub open spec fn bounded(self) -> Config {
        let d = Config::defaults();
        Config {
            preheat_ms: within_or(self.preheat_ms as int, 50, 120_000, d.preheat_ms as int) as u32,
            ignition_window_ms: within_or(self.ignition_window_ms as int, 50, 240_000, d.ignition_window_ms as int) as u32,
            flame_stabilise_ms: within_or(self.flame_stabilise_ms as int, 50, 120_000, d.flame_stabilise_ms as int) as u32,
            retry_purge_ms: within_or(self.retry_purge_ms as int, 50, 180_000, d.retry_purge_ms as int) as u32,
            cooldown_ms: within_or(self.cooldown_ms as int, 50, 600_000, d.cooldown_ms as int) as u32,
            min_run_ms: within_or(self.min_run_ms as int, 0, 3_600_000, d.min_run_ms as int) as u32,
            min_off_ms: within_or(self.min_off_ms as int, 0, 3_600_000, d.min_off_ms as int) as u32,
            boost_duration_ms: within_or(self.boost_duration_ms as int, 10_000, 86_400_000, d.boost_duration_ms as int) as u32,
            flame_loss_ms: within_or(self.flame_loss_ms as int, 100, 600_000, d.flame_loss_ms as int) as u32,
            fan_stall_ms: within_or(self.fan_stall_ms as int, 100, 60_000, d.fan_stall_ms as int) as u32,
            max_hx_temp_mc: within_or(self.max_hx_temp_mc as int, 120_000, 350_000, d.max_hx_temp_mc as int) as i32,
            min_supply_mv: within_or(self.min_supply_mv as int, 6_000, 30_000, d.min_supply_mv as int) as i32,
            setpoint_hysteresis_mc: within_or(self.setpoint_hysteresis_mc as int, 100, 5_000, d.setpoint_hysteresis_mc as int) as i32,
            stage_low_delta_mc: within_or(self.stage_low_delta_mc as int, 50, 10_000, d.stage_low_delta_mc as int) as i32,
            stage_medium_delta_mc: within_or(self.stage_medium_delta_mc as int, 50, 15_000, d.stage_medium_delta_mc as int) as i32,
            stage_high_delta_mc: within_or(self.stage_high_delta_mc as int, 50, 20_000, d.stage_high_delta_mc as int) as i32,
            ignition_min_rise_mc: within_or(self.ignition_min_rise_mc as int, 100, 100_000, d.ignition_min_rise_mc as int) as i32,
            ignition_min_abs_mc: within_or(self.ignition_min_abs_mc as int, -20_000, 200_000, d.ignition_min_abs_mc as int) as i32,
            run_min_temp_mc: within_or(self.run_min_temp_mc as int, -20_000, 200_000, d.run_min_temp_mc as int) as i32,
            fan_stall_min_rpm: within_or(self.fan_stall_min_rpm as int, 50, 20_000, d.fan_stall_min_rpm as int) as u16,
            ..self
        }
    }

    /// Stage thresholds ascend from low to high.
    pub open spec fn stages_ordered(self) -> bool {
        self.stage_low_delta_mc <= self.stage_medium_delta_mc
            && self.stage_medium_delta_mc <= self.stage_high_delta_mc
    }

    /// A configuration that sanitisation accepts as it stands.
    pub open spec fn is_valid(self) -> bool {
        &&& self.fields_in_range()
        &&& self.stages_ordered()
        &&& self.retry_purge_ms <= self.cooldown_ms
        &&& self.run_min_temp_mc <= self.ignition_min_abs_mc
        &&& self.ignition_min_abs_mc < self.max_hx_temp_mc
    }

    /// The result of sanitisation: range checks field by field, then the
    /// cross-field checks in order (stage ordering, retry purge not longer
    /// than cooldown, run minimum not above ignition minimum, ignition
    /// minimum below the overheat limit), each restoring defaults.
    pub open spec fn sanitised(self) -> SanitisedConfig {
        let d = Config::defaults();
        let b = self.bounded();
        let c1 = if b.stages_ordered() {
            b
        } else {
            Config {
                stage_low_delta_mc: d.stage_low_delta_mc,
                stage_medium_delta_mc: d.stage_medium_delta_mc,
                stage_high_delta_mc: d.stage_high_delta_mc,
                ..b
            }
        };
        let retry_bad = c1.retry_purge_ms > c1.cooldown_ms;
        let c2 = if retry_bad {
            Config { retry_purge_ms: d.retry_purge_ms, ..c1 }
        } else {
            c1
        };
        let run_min_bad = c2.run_min_temp_mc > c2.ignition_min_abs_mc;
        let c3 = if run_min_bad {
            Config {
                run_min_temp_mc: d.run_min_temp_mc,
                ignition_min_abs_mc: d.ignition_min_abs_mc,
                ..c2
            }
        } else {
            c2
        };
        let ign_bad = c3.ignition_min_abs_mc >= c3.max_hx_temp_mc;
        let c4 = if ign_bad {
            Config { ignition_min_abs_mc: d.ignition_min_abs_mc, ..c3 }
        } else {
            c3
        };
        SanitisedConfig {
            cfg: c4,
            used_defaults: !self.fields_in_range() || !b.stages_ordered() || retry_bad
                || run_min_bad || ign_bad,
        }
    }

    /// Replaces out-of-range values by defaults and flags each replacement.
    pub fn sanitise(&self) -> (r: SanitisedConfig)
        ensures
            r == self.sanitised(),
    {
        let d = Config::default();
        let mut cfg = *self;
        let (v, bad_preheat_ms) = fit_u32(cfg.preheat_ms, 50, 120_000, d.preheat_ms);
        cfg.preheat_ms = v;
        let (v, bad_ignition_window_ms) = fit_u32(cfg.ignition_window_ms, 50, 240_000, d.ignition_window_ms);
        cfg.ignition_window_ms = v;
        let (v, bad_flame_stabilise_ms) = fit_u32(cfg.flame_stabilise_ms, 50, 120_000, d.flame_stabilise_ms);
        cfg.flame_stabilise_ms = v;
        let (v, bad_retry_purge_ms) = fit_u32(cfg.retry_purge_ms, 50, 180_000, d.retry_purge_ms);
        cfg.retry_purge_ms = v;
        let (v, bad_cooldown_ms) = fit_u32(cfg.cooldown_ms, 50, 600_000, d.cooldown_ms);
        cfg.cooldown_ms = v;
        let (v, bad_min_run_ms) = fit_u32(cfg.min_run_ms, 0, 3_600_000, d.min_run_ms);
        cfg.min_run_ms = v;
        let (v, bad_min_off_ms) = fit_u32(cfg.min_off_ms, 0, 3_600_000, d.min_off_ms);
        cfg.min_off_ms = v;
        let (v, bad_boost_duration_ms) = fit_u32(cfg.boost_duration_ms, 10_000, 86_400_000, d.boost_duration_ms);
        cfg.boost_duration_ms = v;
        let (v, bad_flame_loss_ms) = fit_u32(cfg.flame_loss_ms, 100, 600_000, d.flame_loss_ms);
        cfg.flame_loss_ms = v;
        let (v, bad_fan_stall_ms) = fit_u32(cfg.fan_stall_ms, 100, 60_000, d.fan_stall_ms);
        cfg.fan_stall_ms = v;
        let (v, bad_max_hx_temp_mc) = fit_i32(cfg.max_hx_temp_mc, 120_000, 350_000, d.max_hx_temp_mc);
        cfg.max_hx_temp_mc = v;
        let (v, bad_min_supply_mv) = fit_i32(cfg.min_supply_mv, 6_000, 30_000, d.min_supply_mv);
        cfg.min_supply_mv = v;
        let (v, bad_setpoint_hysteresis_mc) = fit_i32(cfg.setpoint_hysteresis_mc, 100, 5_000, d.setpoint_hysteresis_mc);
        cfg.setpoint_hysteresis_mc = v;
        let (v, bad_stage_low_delta_mc) = fit_i32(cfg.stage_low_delta_mc, 50, 10_000, d.stage_low_delta_mc);
        cfg.stage_low_delta_mc = v;
        let (v, bad_stage_medium_delta_mc) = fit_i32(cfg.stage_medium_delta_mc, 50, 15_000, d.stage_medium_delta_mc);
        cfg.stage_medium_delta_mc = v;
        let (v, bad_stage_high_delta_mc) = fit_i32(cfg.stage_high_delta_mc, 50, 20_000, d.stage_high_delta_mc);
        cfg.stage_high_delta_mc = v;
        let (v, bad_ignition_min_rise_mc) = fit_i32(cfg.ignition_min_rise_mc, 100, 100_000, d.ignition_min_rise_mc);
        cfg.ignition_min_rise_mc = v;
        let (v, bad_ignition_min_abs_mc) = fit_i32(cfg.ignition_min_abs_mc, -20_000, 200_000, d.ignition_min_abs_mc);
        cfg.ignition_min_abs_mc = v;
        let (v, bad_run_min_temp_mc) = fit_i32(cfg.run_min_temp_mc, -20_000, 200_000, d.run_min_temp_mc);
        cfg.run_min_temp_mc = v;
        let (v, bad_fan_stall_min_rpm) = fit_u16(cfg.fan_stall_min_rpm, 50, 20_000, d.fan_stall_min_rpm);
        cfg.fan_stall_min_rpm = v;
        let mut used_defaults = bad_preheat_ms
            || bad_ignition_window_ms
            || bad_flame_stabilise_ms
            || bad_retry_purge_ms
            || bad_cooldown_ms
            || bad_min_run_ms
            || bad_min_off_ms
            || bad_boost_duration_ms
            || bad_flame_loss_ms
            || bad_fan_stall_ms
            || bad_max_hx_temp_mc
            || bad_min_supply_mv
            || bad_setpoint_hysteresis_mc
            || bad_stage_low_delta_mc
            || bad_stage_medium_delta_mc
            || bad_stage_high_delta_mc
            || bad_ignition_min_rise_mc
            || bad_ignition_min_abs_mc
            || bad_run_min_temp_mc
            || bad_fan_stall_min_rpm;
        assert(cfg == self.bounded());

        if !(cfg.stage_low_delta_mc <= cfg.stage_medium_delta_mc
            && cfg.stage_medium_delta_mc <= cfg.stage_high_delta_mc) {
            cfg.stage_low_delta_mc = d.stage_low_delta_mc;
            cfg.stage_medium_delta_mc = d.stage_medium_delta_mc;
            cfg.stage_high_delta_mc = d.stage_high_delta_mc;
            used_defaults = true;
        }

        if cfg.retry_purge_ms > cfg.cooldown_ms {
            cfg.retry_purge_ms = d.retry_purge_ms;
            used_defaults = true;
        }

        if cfg.run_min_temp_mc > cfg.ignition_min_abs_mc {
            cfg.run_min_temp_mc = d.run_min_temp_mc;
            cfg.ignition_min_abs_mc = d.ignition_min_abs_mc;
            used_defaults = true;
        }

        if cfg.ignition_min_abs_mc >= cfg.max_hx_temp_mc {
            cfg.ignition_min_abs_mc = d.ignition_min_abs_mc;
            used_defaults = true;
        }

        SanitisedConfig { cfg, used_defaults }
    }
}

impl Default for Config {
    fn default() -> (c: Config)
        ensures
            c == Config::defaults(),
    {
        Config {
            preheat_ms: 20_000,
            ignition_window_ms: 30_000,
            flame_stabilise_ms: 15_000,
            retry_purge_ms: 20_000,
            cooldown_ms: 90_000,
            max_hx_temp_mc: 230_000,
            min_supply_mv: 10_500,
            min_run_ms: 120_000,
            min_off_ms: 60_000,
            setpoint_hysteresis_mc: 500,
            stage_low_delta_mc: 300,
            stage_medium_delta_mc: 1_000,
            stage_high_delta_mc: 2_000,
            boost_duration_ms: 900_000,
            has_flame_sensor: false,
            has_overheat_cutoff: false,
            has_fan_tach: false,
            ignition_min_rise_mc: 8_000,
            ignition_min_abs_mc: 45_000,
            run_min_temp_mc: 40_000,
            flame_loss_ms: 10_000,
            fan_stall_min_rpm: 300,
            fan_stall_ms: 3_000,
        }
    }
}

} // verus!
