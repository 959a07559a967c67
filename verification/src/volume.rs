//! Per-shot volume and pitch, in exact integer arithmetic.
//!
//! Volumes, factors and pitches are fixed-point values in millionths
//! (`1_000_000` is unity); times are microseconds. Settings are capped at
//! a thousand units in magnitude so that every product provably fits in
//! 64-bit arithmetic.

use vstd::arithmetic::mul::lemma_mul_upper_bound;
use vstd::prelude::*;

verus! {

/// One unit (1.0) in the fixed-point scale.
pub const UNIT: i64 = 1_000_000;

/// Cap on the magnitude of any volume or pitch setting (a thousand
/// units), and on `spam_time` in microseconds (a thousand seconds).
pub const MAX_SETTING: i64 = 1_000_000_000;

/// Per-shot volume policy.
#[derive(Clone, Copy, PartialEq, Eq, Structural, Debug)]
pub struct VolumeSettings {
    /// Whether spam modulation and variance apply at all.
    pub enabled: bool,
    /// Gap (µs) under which successive events count as spam.
    pub spam_time: u64,
    /// Volume offset (millionths) per second of missing gap; may be
    /// negative.
    pub spam_vol_offset_factor: i64,
    /// Cap on the magnitude of the spam offset (millionths).
    pub max_spam_vol_offset: i64,
    /// If false, releases get the plain global volume.
    pub change_releases_volume: bool,
    /// Base volume (millionths).
    pub global_volume: i64,
    /// Half-width of the uniform per-shot variance (millionths).
    pub volume_var: i64,
    /// Factor (millionths) applied when the button is Left or Right.
    pub platformer_volume_factor: i64,
}

impl VolumeSettings {
    pub open spec fn wf(self) -> bool {
        &&& self.spam_time <= MAX_SETTING as u64
        &&& -MAX_SETTING <= self.spam_vol_offset_factor <= MAX_SETTING
        &&& 0 <= self.max_spam_vol_offset <= MAX_SETTING
        &&& 0 <= self.global_volume <= MAX_SETTING
        &&& 0 <= self.volume_var <= MAX_SETTING
        &&& 0 <= self.platformer_volume_factor <= MAX_SETTING
    }
}

impl Default for VolumeSettings {
    /// Enabled; 0.3 s spam window; factor 1.3; cap 0.6; releases
    /// unaffected; global 1.0; variance 0.2; platformer factor 1.0.
    fn default() -> (r: Self)
        ensures
            r == (VolumeSettings {
                enabled: true,
                spam_time: 300_000,
                spam_vol_offset_factor: 1_300_000,
                max_spam_vol_offset: 600_000,
                change_releases_volume: false,
                global_volume: 1_000_000,
                volume_var: 200_000,
                platformer_volume_factor: 1_000_000,
            }),
            r.wf(),
    {
        VolumeSettings {
            enabled: true,
            spam_time: 300_000,
            spam_vol_offset_factor: 1_300_000,
            max_spam_vol_offset: 600_000,
            change_releases_volume: false,
            global_volume: 1_000_000,
            volume_var: 200_000,
            platformer_volume_factor: 1_000_000,
        }
    }
}

/// The inclusive pitch range, in millionths.
#[derive(Clone, Copy, PartialEq, Eq, Structural, Debug)]
pub struct Pitch {
    pub from: u64,
    pub to: u64,
}

impl Pitch {
    pub open spec fn wf(self) -> bool {
        1 <= self.from <= self.to <= MAX_SETTING as u64
    }
}

impl Default for Pitch {
    /// `[0.98, 1.02]`.
    fn default() -> (r: Self)
        ensures
            r == (Pitch { from: 980_000, to: 1_020_000 }),
            r.wf(),
    {
        Pitch { from: 980_000, to: 1_020_000 }
    }
}

/// The spam offset: `(spam_time − gap) · factor`, with the gap clamped to
/// `[0, spam_time]` and the result clamped in magnitude to
/// `max_spam_vol_offset`.
pub open spec fn spam_offset(vs: VolumeSettings, dt_us: u64) -> int {
    let gap: int = if dt_us > vs.spam_time {
        vs.spam_time as int
    } else {
        dt_us as int
    };
    let missing: int = vs.spam_time - gap;
    let fmag: int = if vs.spam_vol_offset_factor < 0 {
        -(vs.spam_vol_offset_factor as int)
    } else {
        vs.spam_vol_offset_factor as int
    };
    let mag: int = (missing * fmag) / (UNIT as int);
    let capped: int = if mag > vs.max_spam_vol_offset {
        vs.max_spam_vol_offset as int
    } else {
        mag
    };
    if vs.spam_vol_offset_factor < 0 {
        -capped
    } else {
        capped
    }
}

/// The per-shot gain: the global volume; plus, when modulation applies,
/// the spam offset and the variance draw (`draw` runs over
/// `0 ..= 2·volume_var` and contributes `draw − volume_var`); clamped to
/// be non-negative; and scaled by the platformer factor on a platformer
/// button. The clamp commutes with the (non-negative) factor, so this
/// equals clamping last.
pub open spec fn gain_spec(
    vs: VolumeSettings,
    platformer: bool,
    push: bool,
    dt_us: u64,
    draw: u64,
) -> int {
    let base: int = vs.global_volume as int;
    let modulated: int = if vs.enabled && (push || vs.change_releases_volume) {
        base + spam_offset(vs, dt_us) + (draw - vs.volume_var)
    } else {
        base
    };
    let clamped: int = if modulated < 0 {
        0
    } else {
        modulated
    };
    if platformer {
        (clamped * vs.platformer_volume_factor) / (UNIT as int)
    } else {
        clamped
    }
}

/// Computes the per-shot gain in millionths; `draw` is the raw variance
/// draw in `0 ..= 2·volume_var`.
pub fn compute_gain(
    vs: &VolumeSettings,
    platformer: bool,
    push: bool,
    dt_us: u64,
    draw: u64,
) -> (g: u64)
    requires
        vs.wf(),
        draw <= 2 * vs.volume_var,
    ensures
        g as int == gain_spec(*vs, platformer, push, dt_us, draw),
        g <= 3_000_000_000_000,
{
    let gap: u64 = if dt_us > vs.spam_time {
        vs.spam_time
    } else {
        dt_us
    };
    let missing: u64 = vs.spam_time - gap;
    let neg = vs.spam_vol_offset_factor < 0;
    let fmag: u64 = if neg {
        (-vs.spam_vol_offset_factor) as u64
    } else {
        vs.spam_vol_offset_factor as u64
    };
    proof {
        lemma_mul_upper_bound(missing as int, MAX_SETTING as int, fmag as int, MAX_SETTING as int);
    }
    let mag: u64 = missing * fmag / 1_000_000;
    let capped: u64 = if mag > vs.max_spam_vol_offset as u64 {
        vs.max_spam_vol_offset as u64
    } else {
        mag
    };
    let off: i64 = if neg {
        -(capped as i64)
    } else {
        capped as i64
    };
    let v: i64 = (draw as i64) - vs.volume_var;
    let mut g: i64 = vs.global_volume;
    if vs.enabled && (push || vs.change_releases_volume) {
        g = g + off + v;
    }
    let gc: u64 = if g < 0 {
        0
    } else {
        g as u64
    };
    if platformer {
        proof {
            lemma_mul_upper_bound(
                gc as int,
                3 * MAX_SETTING as int,
                vs.platformer_volume_factor as int,
                MAX_SETTING as int,
            );
        }
        gc * (vs.platformer_volume_factor as u64) / 1_000_000
    } else {
        gc
    }
}

/// Computes the per-shot pitch: `from` plus the raw draw, which runs
/// over `0 ..= to − from`.
pub fn compute_pitch(p: &Pitch, draw: u64) -> (r: u64)
    requires
        p.wf(),
        draw <= p.to - p.from,
    ensures
        r == p.from + draw,
        p.from <= r <= p.to,
{
    p.from + draw
}

} // verus!
