//! Event dispatch: per-player timing state, classification, sample
//! selection, and per-shot volume and pitch.

use vstd::prelude::*;

use crate::click_type::lemma_from_time_parity;
use crate::click_type::Button;
use crate::click_type::ClickType;
use crate::click_type::Timings;
use crate::clickpack::picked_sounds;
use crate::clickpack::Clickpack;
use crate::rng::random_below;
use crate::sample::SoundWrapper;
use crate::volume::compute_gain;
use crate::volume::compute_pitch;
use crate::volume::gain_spec;
use crate::volume::Pitch;
use crate::volume::VolumeSettings;

verus! {

/// The engine's configuration.
#[derive(Clone, Copy, PartialEq, Eq, Structural, Debug)]
pub struct Config {
    pub timings: Timings,
    pub pitch: Pitch,
    pub volume_settings: VolumeSettings,
    /// Hook the per-player button handler instead of the layer handler.
    pub use_alternate_hook: bool,
    /// Route every event to player 2's bank and timers.
    pub force_player2_sounds: bool,
    /// Ignore events while not in a level.
    pub require_in_level: bool,
    /// Keep a console window open for logging.
    pub show_console: bool,
}

impl Config {
    pub open spec fn wf(self) -> bool {
        self.timings.wf() && self.pitch.wf() && self.volume_settings.wf()
    }
}

pub open spec fn default_config() -> Config {
    Config {
        timings: Timings { hard: 2_000_000, regular: 150_000, soft: 25_000 },
        pitch: Pitch { from: 980_000, to: 1_020_000 },
        volume_settings: VolumeSettings {
            enabled: true,
            spam_time: 300_000,
            spam_vol_offset_factor: 1_300_000,
            max_spam_vol_offset: 600_000,
            change_releases_volume: false,
            global_volume: 1_000_000,
            volume_var: 200_000,
            platformer_volume_factor: 1_000_000,
        },
        use_alternate_hook: false,
        force_player2_sounds: false,
        require_in_level: true,
        show_console: false,
    }
}

impl Default for Config {
    fn default() -> (r: Self)
        ensures
            r == default_config(),
            r.wf(),
    {
        Config {
            timings: Timings::default(),
            pitch: Pitch::default(),
            volume_settings: VolumeSettings::default(),
            use_alternate_hook: false,
            force_player2_sounds: false,
            require_in_level: true,
            show_console: false,
        }
    }
}

/// One player's timing and held-button state.
#[derive(Clone, Copy, PartialEq, Eq, Structural, Debug)]
pub struct PlayerState {
    /// Game time (µs) of the last press.
    pub last_press: u64,
    /// Game time (µs) of the last release.
    pub last_release: u64,
    pub held_jump: bool,
    pub held_left: bool,
    pub held_right: bool,
}

impl PlayerState {
    pub open spec fn reset_at(now: u64) -> PlayerState {
        PlayerState {
            last_press: now,
            last_release: now,
            held_jump: false,
            held_left: false,
            held_right: false,
        }
    }

    pub open spec fn no_held(self) -> bool {
        !self.held_jump && !self.held_left && !self.held_right
    }
}

fn reset_state_at(now: u64) -> (r: PlayerState)
    ensures
        r == PlayerState::reset_at(now),
{
    PlayerState {
        last_press: now,
        last_release: now,
        held_jump: false,
        held_left: false,
        held_right: false,
    }
}

/// The gap since the previous event of the same kind, saturating at zero
/// if the clock ran backwards.
pub open spec fn event_dt(st: PlayerState, push: bool, now: u64) -> u64 {
    let last = if push {
        st.last_press
    } else {
        st.last_release
    };
    if now >= last {
        (now - last) as u64
    } else {
        0
    }
}

/// The player state after an event: the matching timestamp moves to
/// `now` and the button's held flag follows `push`.
pub open spec fn stepped(st: PlayerState, push: bool, button: Button, now: u64) -> PlayerState {
    let st1 = if push {
        PlayerState { last_press: now, ..st }
    } else {
        PlayerState { last_release: now, ..st }
    };
    match button {
        Button::Jump => PlayerState { held_jump: push, ..st1 },
        Button::Left => PlayerState { held_left: push, ..st1 },
        Button::Right => PlayerState { held_right: push, ..st1 },
    }
}

fn step_player(st: &mut PlayerState, push: bool, button: Button, now: u64) -> (dt: u64)
    ensures
        dt == event_dt(*old(st), push, now),
        *final(st) == stepped(*old(st), push, button, now),
{
    let last = if push {
        st.last_press
    } else {
        st.last_release
    };
    let dt = if now >= last {
        now - last
    } else {
        0
    };
    if push {
        st.last_press = now;
    } else {
        st.last_release = now;
    }
    match button {
        Button::Jump => st.held_jump = push,
        Button::Left => st.held_left = push,
        Button::Right => st.held_right = push,
    }
    dt
}


/// The button of a death-scan slot. The scan walks six slots in a fixed
/// order: player 1's jump, left and right, then player 2's.
pub open spec fn death_slot_button(i: int) -> Button {
    if i == 0 || i == 3 {
        Button::Jump
    } else if i == 1 || i == 4 {
        Button::Left
    } else {
        Button::Right
    }
}

/// Whether a death-scan slot belongs to player 2.
pub open spec fn death_slot_player2(i: int) -> bool {
    i >= 3
}

/// The held flags of both players, in slot order.
pub open spec fn held_flags(p1: PlayerState, p2: PlayerState) -> Seq<bool> {
    seq![p1.held_jump, p1.held_left, p1.held_right, p2.held_jump, p2.held_left, p2.held_right]
}

/// How many of a player's three buttons are held.
pub open spec fn held_count(st: PlayerState) -> int {
    (if st.held_jump {
        1int
    } else {
        0int
    }) + (if st.held_left {
        1int
    } else {
        0int
    }) + (if st.held_right {
        1int
    } else {
        0int
    })
}

/// Whether any slot in `lo..hi` is held.
pub open spec fn any_held_in(held: Seq<bool>, lo: int, hi: int) -> bool {
    exists|k: int| lo <= k < hi && held[k]
}

/// The number of held slots from slot `i` on.
pub open spec fn held_from(held: Seq<bool>, i: int) -> int
    decreases 6 - i,
{
    if i < 0 || i >= 6 {
        0
    } else {
        (if held[i] {
            1int
        } else {
            0int
        }) + held_from(held, i + 1)
    }
}

/// One synthesized release of a death scan: the player it was routed to,
/// its button, and the gap it was classified with.
pub struct DeathStep {
    pub player2: bool,
    pub button: Button,
    pub dt: u64,
}

/// The releases a death scan synthesizes from slot `i` on, given the two
/// players' evolving states: each held slot contributes one release,
/// classified against the routed player's state at that point, which
/// then advances as a release does.
pub open spec fn death_steps(
    p1: PlayerState,
    p2: PlayerState,
    held: Seq<bool>,
    force: bool,
    now: u64,
    i: int,
) -> Seq<DeathStep>
    decreases 6 - i,
{
    if i < 0 || i >= 6 {
        Seq::empty()
    } else if held[i] {
        let p2r = force || death_slot_player2(i);
        let b = death_slot_button(i);
        let st = if p2r {
            p2
        } else {
            p1
        };
        let step = DeathStep { player2: p2r, button: b, dt: event_dt(st, false, now) };
        let st2 = stepped(st, false, b, now);
        if p2r {
            seq![step] + death_steps(p1, st2, held, force, now, i + 1)
        } else {
            seq![step] + death_steps(st2, p2, held, force, now, i + 1)
        }
    } else {
        death_steps(p1, p2, held, force, now, i + 1)
    }
}

/// A death scan synthesizes exactly one release per held slot.
proof fn lemma_death_steps_count(
    p1: PlayerState,
    p2: PlayerState,
    held: Seq<bool>,
    force: bool,
    now: u64,
    i: int,
)
    ensures
        death_steps(p1, p2, held, force, now, i).len() == held_from(held, i),
    decreases 6 - i,
{
    if 0 <= i < 6 {
        if held[i] {
            let p2r = force || death_slot_player2(i);
            let b = death_slot_button(i);
            let st = if p2r {
                p2
            } else {
                p1
            };
            let st2 = stepped(st, false, b, now);
            if p2r {
                lemma_death_steps_count(p1, st2, held, force, now, i + 1);
            } else {
                lemma_death_steps_count(st2, p2, held, force, now, i + 1);
            }
        } else {
            lemma_death_steps_count(p1, p2, held, force, now, i + 1);
        }
    }
}

/// What one synthesized release command satisfies: the sound comes from
/// the bucket the cross-bank fallback picks for its release category,
/// the gain follows the volume policy for some in-range variance draw,
/// and the pitch lies in the configured range.
pub open spec fn death_cmd_ok(
    cmd: PlayCommand,
    step: DeathStep,
    cp: Clickpack,
    conf: Config,
) -> bool {
    let ct = ClickType::spec_from_time(false, step.dt, conf.timings);
    &&& (exists|j: int|
        0 <= j < picked_sounds(cp@, ct, step.player2, step.button).len() && cmd.sound
            == picked_sounds(cp@, ct, step.player2, step.button)[j])
    &&& (exists|d: u64|
        d <= 2 * conf.volume_settings.volume_var && cmd.gain_micro == gain_spec(
            conf.volume_settings,
            step.button.is_platformer(),
            false,
            step.dt,
            d,
        ))
    &&& conf.pitch.from <= cmd.pitch_micro <= conf.pitch.to
}

/// One playback order for the host: the sample, and the gain and pitch
/// in millionths.
#[derive(Clone, Debug, PartialEq)]
pub struct PlayCommand {
    pub sound: SoundWrapper,
    pub gain_micro: u64,
    pub pitch_micro: u64,
}

/// The abstract state of the dispatcher.
pub struct BotView {
    pub conf: Config,
    pub clickpack: Option<Clickpack>,
    pub time_us: u64,
    pub external_time: bool,
    pub is_in_level: bool,
    pub playlayer: u64,
    pub p1: PlayerState,
    pub p2: PlayerState,
}

impl BotView {
    /// The configuration is valid and the active clickpack, if any, is
    /// consistent.
    pub open spec fn wf(self) -> bool {
        &&& self.conf.wf()
        &&& match self.clickpack {
            Some(cp) => cp.wf(),
            None => true,
        }
    }

    /// Whether an event is dropped without touching any state: no active
    /// clickpack, a clickpack with no samples at all, or out of a level
    /// while the configuration demands one.
    pub open spec fn ignores(self) -> bool {
        ||| self.clickpack is None
        ||| (self.clickpack->Some_0)@.total() == 0
        ||| (!self.is_in_level && self.conf.require_in_level)
    }

    /// The state consulted and advanced by an event routed to this
    /// player.
    pub open spec fn player(self, player2: bool) -> PlayerState {
        if player2 {
            self.p2
        } else {
            self.p1
        }
    }

    /// Where an event lands: player 2 when the event says so or the
    /// configuration forces it.
    pub open spec fn routed_player2(self, player2: bool) -> bool {
        self.conf.force_player2_sounds || player2
    }
}

/// The dispatch state machine. It owns the active clickpack, tracks
/// per-player event timing and the internal clock, and turns each button
/// event into at most one playback command.
pub struct Bot {
    conf: Config,
    clickpack: Option<Clickpack>,
    time_us: u64,
    external_time: bool,
    is_in_level: bool,
    playlayer: u64,
    p1: PlayerState,
    p2: PlayerState,
}

impl View for Bot {
    type V = BotView;

    closed spec fn view(&self) -> BotView {
        BotView {
            conf: self.conf,
            clickpack: self.clickpack,
            time_us: self.time_us,
            external_time: self.external_time,
            is_in_level: self.is_in_level,
            playlayer: self.playlayer,
            p1: self.p1,
            p2: self.p2,
        }
    }
}

impl Bot {
    pub fn new() -> (r: Bot)
        ensures
            r@.wf(),
            r@ == (BotView {
                conf: default_config(),
                clickpack: None,
                time_us: 0,
                external_time: false,
                is_in_level: false,
                playlayer: 0,
                p1: PlayerState::reset_at(0),
                p2: PlayerState::reset_at(0),
            }),
    {
        Bot {
            conf: Config::default(),
            clickpack: None,
            time_us: 0,
            external_time: false,
            is_in_level: false,
            playlayer: 0,
            p1: reset_state_at(0),
            p2: reset_state_at(0),
        }
    }

    /// The current configuration.
    pub fn conf(&self) -> (c: &Config)
        ensures
            *c == self@.conf,
    {
        &self.conf
    }

    /// Replaces the configuration; the host validates it first.
    pub fn set_config(&mut self, conf: Config)
        requires
            old(self)@.wf(),
            conf.wf(),
        ensures
            final(self)@.wf(),
            final(self)@ == (BotView { conf, ..old(self)@ }),
    {
        self.conf = conf;
    }

    /// The current game clock, in microseconds.
    pub fn time_us(&self) -> (t: u64)
        ensures
            t == self@.time_us,
    {
        self.time_us
    }

    /// Player 1's timing and held-button state.
    pub fn player1_state(&self) -> (s: PlayerState)
        ensures
            s == self@.p1,
    {
        self.p1
    }

    /// Player 2's timing and held-button state.
    pub fn player2_state(&self) -> (s: PlayerState)
        ensures
            s == self@.p2,
    {
        self.p2
    }

    /// Installs a loaded clickpack. A pack with no samples is accepted
    /// and simply plays nothing: events ignore an empty pack.
    pub fn set_clickpack(&mut self, cp: Clickpack)
        requires
            old(self)@.wf(),
            cp.wf(),
        ensures
            final(self)@.wf(),
            final(self)@ == (BotView { clickpack: Some(cp), ..old(self)@ }),
    {
        self.clickpack = Some(cp);
    }

    /// Removes and returns the active clickpack, for a reload.
    pub fn take_clickpack(&mut self) -> (r: Option<Clickpack>)
        requires
            old(self)@.wf(),
        ensures
            final(self)@.wf(),
            r == old(self)@.clickpack,
            final(self)@ == (BotView { clickpack: None, ..old(self)@ }),
            r is Some ==> r->Some_0.wf(),
    {
        self.clickpack.take()
    }

    /// Read access to the active clickpack.
    pub fn clickpack(&self) -> (r: &Option<Clickpack>)
        ensures
            *r == self@.clickpack,
    {
        &self.clickpack
    }

    /// Entering a level: record the host handle, reset both players'
    /// timers to the current clock, and mark the level active.
    pub fn on_init(&mut self, playlayer: u64)
        requires
            old(self)@.wf(),
        ensures
            final(self)@.wf(),
            final(self)@ == (BotView {
                playlayer,
                is_in_level: true,
                p1: PlayerState::reset_at(old(self)@.time_us),
                p2: PlayerState::reset_at(old(self)@.time_us),
                ..old(self)@
            }),
    {
        self.playlayer = playlayer;
        self.is_in_level = true;
        let now = self.time_us;
        self.p1 = reset_state_at(now);
        self.p2 = reset_state_at(now);
    }

    /// Restarting the level: reset both players' timers to the current
    /// clock, so the next event classifies as hard.
    pub fn on_reset(&mut self)
        requires
            old(self)@.wf(),
        ensures
            final(self)@.wf(),
            final(self)@ == (BotView {
                p1: PlayerState::reset_at(old(self)@.time_us),
                p2: PlayerState::reset_at(old(self)@.time_us),
                ..old(self)@
            }),
    {
        let now = self.time_us;
        self.p1 = reset_state_at(now);
        self.p2 = reset_state_at(now);
    }

    /// Leaving the level.
    pub fn on_exit(&mut self)
        requires
            old(self)@.wf(),
        ensures
            final(self)@.wf(),
            final(self)@ == (BotView { is_in_level: false, ..old(self)@ }),
    {
        self.is_in_level = false;
    }

    /// Marks or clears the in-level flag directly.
    pub fn set_is_in_level(&mut self, is_in_level: bool)
        requires
            old(self)@.wf(),
        ensures
            final(self)@.wf(),
            final(self)@ == (BotView { is_in_level, ..old(self)@ }),
    {
        self.is_in_level = is_in_level;
    }

    /// The host supplies the clock for this tick.
    pub fn set_playlayer_time(&mut self, time_us: u64)
        requires
            old(self)@.wf(),
        ensures
            final(self)@.wf(),
            final(self)@ == (BotView { time_us, external_time: true, ..old(self)@ }),
    {
        self.time_us = time_us;
        self.external_time = true;
    }

    /// One update tick: the clock advances by `dt_us` unless the host
    /// supplied it since the previous tick; saturates at the maximum.
    pub fn on_update(&mut self, dt_us: u64)
        requires
            old(self)@.wf(),
        ensures
            final(self)@.wf(),
            final(self)@ == (BotView {
                time_us: if old(self)@.external_time {
                    old(self)@.time_us
                } else if old(self)@.time_us + dt_us <= u64::MAX {
                    (old(self)@.time_us + dt_us) as u64
                } else {
                    u64::MAX
                },
                external_time: false,
                ..old(self)@
            }),
    {
        if self.external_time {
            self.external_time = false;
        } else {
            if dt_us <= u64::MAX - self.time_us {
                self.time_us = self.time_us + dt_us;
            } else {
                self.time_us = u64::MAX;
            }
        }
    }

    /// The hot path: classifies the event by the gap since the previous
    /// event of the same kind on the routed player, advances that
    /// player's state, and produces the sample, gain and pitch to play.
    /// Never mutates the loaded clickpack.
    pub fn on_action(&mut self, button: Button, player2: bool, push: bool) -> (r: Option<
        PlayCommand,
    >)
        requires
            old(self)@.wf(),
        ensures
            final(self)@.wf(),
            final(self)@.conf == old(self)@.conf,
            final(self)@.clickpack == old(self)@.clickpack,
            final(self)@.time_us == old(self)@.time_us,
            final(self)@.external_time == old(self)@.external_time,
            final(self)@.is_in_level == old(self)@.is_in_level,
            final(self)@.playlayer == old(self)@.playlayer,
            old(self)@.ignores() ==> r is None && final(self)@ == old(self)@,
            !old(self)@.ignores() ==> ({
                let p2r = old(self)@.routed_player2(player2);
                let st = old(self)@.player(p2r);
                let now = old(self)@.time_us;
                let dt = event_dt(st, push, now);
                let ct = ClickType::spec_from_time(push, dt, old(self)@.conf.timings);
                let cp = old(self)@.clickpack->Some_0;
                &&& final(self)@.player(p2r) == stepped(st, push, button, now)
                &&& final(self)@.player(!p2r) == old(self)@.player(!p2r)
                &&& r is Some
                &&& (exists|k: int|
                    0 <= k < picked_sounds(cp@, ct, p2r, button).len() && r->Some_0.sound
                        == picked_sounds(cp@, ct, p2r, button)[k])
                &&& (exists|d: u64|
                    d <= 2 * old(self)@.conf.volume_settings.volume_var && r->Some_0.gain_micro
                        == gain_spec(
                        old(self)@.conf.volume_settings,
                        button.is_platformer(),
                        push,
                        dt,
                        d,
                    ))
                &&& old(self)@.conf.pitch.from <= r->Some_0.pitch_micro <= old(self)@.conf.pitch.to
            }),
    {
        let inactive = match &self.clickpack {
            Some(cp) => {
                proof {
                    cp.lemma_wf_banks();
                }
                cp.num_sounds() == 0
            },
            None => true,
        };
        if inactive || (!self.is_in_level && self.conf.require_in_level) {
            return None;
        }
        let p2r = self.conf.force_player2_sounds || player2;
        let now = self.time_us;
        let dt = if p2r {
            step_player(&mut self.p2, push, button, now)
        } else {
            step_player(&mut self.p1, push, button, now)
        };
        let ct = ClickType::from_time(push, dt, &self.conf.timings);
        proof {
            lemma_from_time_parity(push, dt, self.conf.timings);
        }
        let vs = self.conf.volume_settings;
        let var2: u64 = 2 * (vs.volume_var as u64);
        let draw = random_below(var2 + 1);
        let gain = compute_gain(&vs, button.is_platformer(), push, dt, draw);
        let pitch_range: u64 = self.conf.pitch.to - self.conf.pitch.from;
        let pitch_draw = random_below(pitch_range + 1);
        let pitch = compute_pitch(&self.conf.pitch, pitch_draw);
        match &self.clickpack {
            Some(cp) => {
                let s = cp.get_random_click(ct, p2r, button);
                let sound = s.clone();
                Some(PlayCommand { sound, gain_micro: gain, pitch_micro: pitch })
            },
            None => None,
        }
    }

    /// Player death: synthesize a release, through the ordinary event
    /// path, for every button held at the moment of death — the six
    /// slots are scanned in a fixed order, player 1's jump, left and
    /// right, then player 2's. Each held slot yields exactly one
    /// command; afterwards no button is considered held.
    #[verifier::rlimit(100)]
    #[verifier::spinoff_prover]
    pub fn on_death(&mut self) -> (cmds: Vec<PlayCommand>)
        requires
            old(self)@.wf(),
        ensures
            final(self)@.wf(),
            final(self)@.conf == old(self)@.conf,
            final(self)@.clickpack == old(self)@.clickpack,
            final(self)@.time_us == old(self)@.time_us,
            final(self)@.external_time == old(self)@.external_time,
            final(self)@.is_in_level == old(self)@.is_in_level,
            final(self)@.playlayer == old(self)@.playlayer,
            old(self)@.ignores() ==> final(self)@ == old(self)@ && cmds@.len() == 0,
            !old(self)@.ignores() ==> ({
                let now = old(self)@.time_us;
                let force = old(self)@.conf.force_player2_sounds;
                let held = held_flags(old(self)@.p1, old(self)@.p2);
                let steps = death_steps(old(self)@.p1, old(self)@.p2, held, force, now, 0);
                let cp = old(self)@.clickpack->Some_0;
                &&& final(self)@.p1.no_held()
                &&& final(self)@.p2.no_held()
                &&& final(self)@.p1.last_press == old(self)@.p1.last_press
                &&& final(self)@.p2.last_press == old(self)@.p2.last_press
                &&& final(self)@.p1.last_release == (if !force && any_held_in(held, 0, 3) {
                    now
                } else {
                    old(self)@.p1.last_release
                })
                &&& final(self)@.p2.last_release == (if (force && any_held_in(held, 0, 6)) || (
                !force && any_held_in(held, 3, 6)) {
                    now
                } else {
                    old(self)@.p2.last_release
                })
                &&& cmds@.len() == steps.len()
                &&& cmds@.len() == held_count(old(self)@.p1) + held_count(old(self)@.p2)
                &&& (forall|k: int|
                    0 <= k < cmds@.len() ==> death_cmd_ok(
                        #[trigger] cmds@[k],
                        steps[k],
                        cp,
                        old(self)@.conf,
                    ))
            }),
    {
        let mut cmds: Vec<PlayCommand> = Vec::new();
        let inactive = match &self.clickpack {
            Some(cp) => {
                proof {
                    cp.lemma_wf_banks();
                }
                cp.num_sounds() == 0
            },
            None => true,
        };
        if inactive || (!self.is_in_level && self.conf.require_in_level) {
            return cmds;
        }
        let held_arr: [bool; 6] = [
            self.p1.held_jump,
            self.p1.held_left,
            self.p1.held_right,
            self.p2.held_jump,
            self.p2.held_left,
            self.p2.held_right,
        ];
        let buttons: [Button; 6] = [
            Button::Jump,
            Button::Left,
            Button::Right,
            Button::Jump,
            Button::Left,
            Button::Right,
        ];
        let ghost now = self@.time_us;
        let ghost force = self@.conf.force_player2_sounds;
        let ghost held = held_flags(self@.p1, self@.p2);
        let ghost steps = death_steps(self@.p1, self@.p2, held, force, now, 0);
        let ghost cp = self@.clickpack->Some_0;
        proof {
            assert(held_arr@ =~= held);
            assert(steps.skip(0) =~= steps);
        }
        for i in 0..6usize
            invariant
                self@.wf(),
                self@.conf == old(self)@.conf,
                self@.clickpack == old(self)@.clickpack,
                self@.time_us == old(self)@.time_us,
                self@.external_time == old(self)@.external_time,
                self@.is_in_level == old(self)@.is_in_level,
                self@.playlayer == old(self)@.playlayer,
                !old(self)@.ignores(),
                now == old(self)@.time_us,
                force == old(self)@.conf.force_player2_sounds,
                held == held_flags(old(self)@.p1, old(self)@.p2),
                held.len() == 6,
                held_arr@ == held,
                forall|k: int| 0 <= k < 6 ==> #[trigger] buttons@[k] == death_slot_button(k),
                steps == death_steps(old(self)@.p1, old(self)@.p2, held, force, now, 0),
                cp == old(self)@.clickpack->Some_0,
                cmds@.len() <= steps.len(),
                death_steps(self@.p1, self@.p2, held, force, now, i as int) == steps.skip(
                    cmds@.len() as int,
                ),
                forall|k: int|
                    0 <= k < cmds@.len() ==> death_cmd_ok(
                        #[trigger] cmds@[k],
                        steps[k],
                        cp,
                        old(self)@.conf,
                    ),
                self@.p1.last_press == old(self)@.p1.last_press,
                self@.p2.last_press == old(self)@.p2.last_press,
                self@.p1.last_release == (if !force && any_held_in(
                    held,
                    0,
                    if i <= 3 {
                        i as int
                    } else {
                        3
                    },
                ) {
                    now
                } else {
                    old(self)@.p1.last_release
                }),
                self@.p2.last_release == (if (force && any_held_in(held, 0, i as int)) || (!force
                    && any_held_in(held, 3, i as int)) {
                    now
                } else {
                    old(self)@.p2.last_release
                }),
        {
            let ghost p1c = self@.p1;
            let ghost p2c = self@.p2;
            let ghost c = cmds@.len() as int;
            if held_arr[i] {
                let b = buttons[i];
                let player2 = i >= 3;
                let ghost p2r = force || death_slot_player2(i as int);
                let ghost st = if p2r {
                    p2c
                } else {
                    p1c
                };
                let ghost step = DeathStep {
                    player2: p2r,
                    button: death_slot_button(i as int),
                    dt: event_dt(st, false, now),
                };
                proof {
                    assert(b == death_slot_button(i as int));
                    assert(death_slot_player2(i as int) == (i >= 3));
                    assert(held[i as int]);
                    assert(steps.skip(c)[0] == step);
                    assert(steps.skip(c).len() >= 1);
                    assert(c < steps.len());
                    assert(steps.skip(c)[0] == steps[c]);
                    assert(steps[c] == step);
                    assert(steps.skip(c).drop_first() =~= steps.skip(c + 1));
                }
                let r = self.on_action(b, player2, false);
                proof {
                    assert(death_steps(self@.p1, self@.p2, held, force, now, i + 1) == steps.skip(
                        c + 1,
                    ));
                }
                match r {
                    Some(cmd) => {
                        proof {
                            let conf0 = old(self)@.conf;
                            let ct = ClickType::spec_from_time(false, step.dt, conf0.timings);
                            let k0 = choose|k: int|
                                0 <= k < picked_sounds(cp@, ct, p2r, b).len() && cmd.sound
                                    == picked_sounds(cp@, ct, p2r, b)[k];
                            assert(0 <= k0 < picked_sounds(
                                cp@,
                                ct,
                                step.player2,
                                step.button,
                            ).len() && cmd.sound == picked_sounds(
                                cp@,
                                ct,
                                step.player2,
                                step.button,
                            )[k0]);
                            assert(death_cmd_ok(cmd, step, cp, conf0));
                            assert(steps[c] == step);
                        }
                        cmds.push(cmd);
                    },
                    None => {
                        proof {
                            assert(false);
                        }
                    },
                }
                proof {
                    assert(any_held_in(held, 0, i + 1));
                    if i >= 3 {
                        assert(any_held_in(held, 3, i + 1));
                    }
                    assert(any_held_in(held, 0, i as int) ==> any_held_in(held, 0, i + 1));
                    assert(any_held_in(held, 3, i as int) ==> any_held_in(held, 3, i + 1));
                }
            } else {
                proof {
                    assert(!held[i as int]);
                    assert(death_steps(p1c, p2c, held, force, now, i as int) == death_steps(
                        p1c,
                        p2c,
                        held,
                        force,
                        now,
                        i + 1,
                    ));
                    assert(any_held_in(held, 0, i + 1) == any_held_in(held, 0, i as int));
                    assert(any_held_in(held, 3, i + 1) == any_held_in(held, 3, i as int));
                }
            }
        }
        proof {
            assert(death_steps(self@.p1, self@.p2, held, force, now, 6) =~= Seq::<
                DeathStep,
            >::empty());
            assert(cmds@.len() == steps.len());
            lemma_death_steps_count(old(self)@.p1, old(self)@.p2, held, force, now, 0);
            assert(held_from(held, 6) == 0);
            assert(held_from(held, 5) == (if held[5] {
                1int
            } else {
                0int
            }));
            assert(held_from(held, 4) == (if held[4] {
                1int
            } else {
                0int
            }) + held_from(held, 5));
            assert(held_from(held, 3) == (if held[3] {
                1int
            } else {
                0int
            }) + held_from(held, 4));
            assert(held_from(held, 2) == (if held[2] {
                1int
            } else {
                0int
            }) + held_from(held, 3));
            assert(held_from(held, 1) == (if held[1] {
                1int
            } else {
                0int
            }) + held_from(held, 2));
            assert(held_from(held, 0) == (if held[0] {
                1int
            } else {
                0int
            }) + held_from(held, 1));
            assert(held_from(held, 0) == held_count(old(self)@.p1) + held_count(old(self)@.p2));
        }
        self.p1.held_jump = false;
        self.p1.held_left = false;
        self.p1.held_right = false;
        self.p2.held_jump = false;
        self.p2.held_left = false;
        self.p2.held_right = false;
        cmds
    }
}

} // verus!

