use zcblive::bot::Bot;
use zcblive::bot::Config;
use zcblive::bot::PlayCommand;
use zcblive::click_type::Button;
use zcblive::clickpack::Clickpack;
use zcblive::clickpack::LoadClickpackFor;
use zcblive::pack::FileEntry;
use zcblive::pack::LeafDir;
use zcblive::pack::PackDir;
use zcblive::pack::TopDir;
use zcblive::sample::SoundWrapper;
use zcblive::volume::compute_gain;
use zcblive::volume::Pitch;
use zcblive::volume::VolumeSettings;

fn snd(rate: u32) -> SoundWrapper {
    SoundWrapper { sound: kittyaudio::Sound::from_frames(rate, &[]) }
}

fn file(name: &str, rate: u32) -> FileEntry {
    FileEntry { name: name.to_string(), sound: Some(snd(rate)) }
}

fn leaf(name: &str, files: Vec<FileEntry>) -> LeafDir {
    LeafDir { name: name.to_string(), files }
}

fn top(name: &str, subdirs: Vec<LeafDir>) -> TopDir {
    TopDir { name: name.to_string(), files: vec![], subdirs }
}

fn small_pack() -> Clickpack {
    let p = PackDir {
        name: "pack".to_string(),
        files: vec![],
        dirs: vec![
            top(
                "player1",
                vec![
                    leaf("clicks", vec![file("a.wav", 1)]),
                    leaf("releases", vec![file("r.wav", 2)]),
                ],
            ),
            top("player2", vec![leaf("clicks", vec![file("b.wav", 3)])]),
        ],
    };
    let mut cp = Clickpack::new();
    cp.load_from_path(&p, LoadClickpackFor::All).expect("pack has sounds");
    cp
}

/// Deterministic settings as in the spam-offset scenario: variance off,
/// fixed pitch.
fn deterministic_config() -> Config {
    let mut c = Config::default();
    c.volume_settings = VolumeSettings {
        enabled: true,
        spam_time: 300_000,
        spam_vol_offset_factor: 1_300_000,
        max_spam_vol_offset: 600_000,
        change_releases_volume: false,
        global_volume: 1_000_000,
        volume_var: 0,
        platformer_volume_factor: 1_000_000,
    };
    c.pitch = Pitch { from: 1_000_000, to: 1_000_000 };
    c
}

fn ready_bot() -> Bot {
    let mut bot = Bot::new();
    bot.set_config(deterministic_config());
    bot.set_clickpack(small_pack());
    bot.on_init(1);
    bot
}

#[test]
fn spam_volume_offset() {
    let vs = deterministic_config().volume_settings;
    // Gap 0: offset = clamp(0.3 * 1.3, ±0.6) = 0.39 above the global 1.0.
    assert_eq!(compute_gain(&vs, false, true, 0, 0), 1_390_000);
    // Gap equal to the spam window: no offset.
    assert_eq!(compute_gain(&vs, false, true, 300_000, 0), 1_000_000);
    // Releases are unaffected while change_releases_volume is off.
    assert_eq!(compute_gain(&vs, false, false, 0, 0), 1_000_000);
}

#[test]
fn spam_offset_is_capped() {
    let mut vs = deterministic_config().volume_settings;
    vs.spam_vol_offset_factor = 10_000_000; // 10.0 per missing second
    assert_eq!(compute_gain(&vs, false, true, 0, 0), 1_600_000);
    vs.spam_vol_offset_factor = -10_000_000;
    // A negative factor pulls the volume down, capped in magnitude too.
    assert_eq!(compute_gain(&vs, false, true, 0, 0), 400_000);
}

#[test]
fn gain_never_goes_negative() {
    let mut vs = deterministic_config().volume_settings;
    vs.global_volume = 100_000;
    vs.spam_vol_offset_factor = -10_000_000;
    vs.max_spam_vol_offset = 1_000_000_000;
    assert_eq!(compute_gain(&vs, false, true, 0, 0), 0);
}

#[test]
fn platformer_factor_scales_gain() {
    let mut vs = deterministic_config().volume_settings;
    vs.platformer_volume_factor = 500_000; // 0.5
    assert_eq!(compute_gain(&vs, true, true, 300_000, 0), 500_000);
    assert_eq!(compute_gain(&vs, false, true, 300_000, 0), 1_000_000);
}

#[test]
fn on_action_applies_spam_offset() {
    let mut bot = ready_bot();
    // on_init reset the timers to the clock, so the first press has gap 0.
    let cmd = bot.on_action(Button::Jump, false, true).expect("plays");
    assert_eq!(cmd.gain_micro, 1_390_000);
    assert_eq!(cmd.pitch_micro, 1_000_000);
    assert_eq!(cmd.sound, snd(1));
    // After a full spam window the offset is gone.
    bot.on_update(300_000);
    let cmd2 = bot.on_action(Button::Jump, false, true).expect("plays");
    assert_eq!(cmd2.gain_micro, 1_000_000);
    // A release right away keeps the plain volume.
    let cmd3 = bot.on_action(Button::Jump, false, false).expect("plays");
    assert_eq!(cmd3.gain_micro, 1_000_000);
    assert_eq!(cmd3.sound, snd(2));
}

#[test]
fn events_are_ignored_without_clickpack_or_level() {
    let mut bot = Bot::new();
    bot.set_config(deterministic_config());
    bot.on_init(1);
    // No clickpack yet.
    assert!(bot.on_action(Button::Jump, false, true).is_none());
    bot.set_clickpack(small_pack());
    bot.on_exit();
    // Out of the level while the config requires one.
    assert!(bot.on_action(Button::Jump, false, true).is_none());
    bot.set_is_in_level(true);
    assert!(bot.on_action(Button::Jump, false, true).is_some());
}

#[test]
fn force_player2_routes_to_player2() {
    let mut bot = ready_bot();
    let mut c = *bot.conf();
    c.force_player2_sounds = true;
    bot.set_config(c);
    bot.on_update(10_000);
    let before_p1 = bot.player1_state();
    let cmd = bot.on_action(Button::Jump, false, true).expect("plays");
    // The event lands on player 2's bank and timers.
    assert_eq!(cmd.sound, snd(3));
    assert_eq!(bot.player1_state(), before_p1);
    assert!(bot.player2_state().held_jump);
    assert_eq!(bot.player2_state().last_press, bot.time_us());
}

#[test]
fn on_death_releases_held_buttons() {
    let mut bot = ready_bot();
    bot.on_action(Button::Jump, false, true);
    bot.on_action(Button::Left, true, true);
    assert!(bot.player1_state().held_jump);
    assert!(bot.player2_state().held_left);
    let cmds = bot.on_death();
    assert_eq!(cmds.len(), 2);
    assert!(!bot.player1_state().held_jump);
    assert!(!bot.player2_state().held_left);
    // A second death has nothing left to release.
    assert_eq!(bot.on_death().len(), 0);
}

#[test]
fn clock_prefers_external_time() {
    let mut bot = ready_bot();
    bot.set_playlayer_time(5_000_000);
    assert_eq!(bot.time_us(), 5_000_000);
    // The next tick consumes the external-time flag without advancing.
    bot.on_update(16_000);
    assert_eq!(bot.time_us(), 5_000_000);
    // After that, ticks advance the clock again.
    bot.on_update(16_000);
    assert_eq!(bot.time_us(), 5_016_000);
}

#[test]
fn on_reset_makes_next_event_hard() {
    let mut bot = ready_bot();
    bot.on_update(100_000);
    bot.on_action(Button::Jump, false, true);
    bot.on_update(2_500_000);
    bot.on_reset();
    // The timers moved to the current clock: the next press has gap 0 and
    // classifies as micro, which falls back to the plain click sample.
    let cmd = bot.on_action(Button::Jump, false, true).expect("plays");
    assert_eq!(cmd.gain_micro, 1_390_000);
}

#[test]
fn on_action_does_not_mutate_clickpack() {
    let mut bot = ready_bot();
    let before: Vec<Vec<SoundWrapper>> = {
        let cp = bot.clickpack().as_ref().expect("set");
        (0..6)
            .flat_map(|i| {
                let b = cp.bank(i);
                vec![
                    b.hardclicks.clone(),
                    b.hardreleases.clone(),
                    b.clicks.clone(),
                    b.releases.clone(),
                    b.softclicks.clone(),
                    b.softreleases.clone(),
                    b.microclicks.clone(),
                    b.microreleases.clone(),
                ]
            })
            .collect()
    };
    for i in 0..20u64 {
        bot.on_update(10_000);
        bot.on_action(Button::Jump, i % 2 == 0, i % 3 != 0);
    }
    let cp = bot.clickpack().as_ref().expect("still set");
    let after: Vec<Vec<SoundWrapper>> = (0..6)
        .flat_map(|i| {
            let b = cp.bank(i);
            vec![
                b.hardclicks.clone(),
                b.hardreleases.clone(),
                b.clicks.clone(),
                b.releases.clone(),
                b.softclicks.clone(),
                b.softreleases.clone(),
                b.microclicks.clone(),
                b.microreleases.clone(),
            ]
        })
        .collect();
    assert_eq!(before, after);
    assert_eq!(cp.num_sounds(), 3);
}

#[test]
fn dispatch_is_deterministic_under_fixed_seed() {
    let run = || -> Vec<Option<PlayCommand>> {
        fastrand::seed(42);
        let mut bot = Bot::new();
        let mut c = Config::default();
        c.pitch = Pitch { from: 980_000, to: 1_020_000 };
        bot.set_config(c);
        bot.set_clickpack(small_pack());
        bot.on_init(1);
        let mut out = Vec::new();
        for i in 0..30u64 {
            bot.on_update(7_000 + (i % 5) * 13_000);
            out.push(bot.on_action(
                if i % 3 == 0 { Button::Jump } else { Button::Left },
                i % 2 == 1,
                i % 4 < 2,
            ));
        }
        out.push(bot.on_death().pop());
        out
    };
    let first = run();
    let second = run();
    assert_eq!(first, second);
    // The stream really plays something.
    assert!(first.iter().filter(|c| c.is_some()).count() > 10);
}

#[test]
fn pitch_and_variance_stay_in_range() {
    fastrand::seed(9);
    let mut bot = Bot::new();
    let mut c = Config::default();
    c.pitch = Pitch { from: 980_000, to: 1_020_000 };
    c.volume_settings.volume_var = 200_000;
    bot.set_config(c);
    bot.set_clickpack(small_pack());
    bot.on_init(1);
    let mut pitches = Vec::new();
    let mut gains = Vec::new();
    for _ in 0..60 {
        bot.on_update(400_000);
        let cmd = bot.on_action(Button::Jump, false, true).expect("plays");
        assert!((980_000..=1_020_000).contains(&cmd.pitch_micro));
        // Gap 0.4 s leaves no spam offset; the gain is 1.0 plus at most
        // the variance half-width, never negative.
        assert!((800_000..=1_200_000).contains(&cmd.gain_micro));
        pitches.push(cmd.pitch_micro);
        gains.push(cmd.gain_micro);
    }
    pitches.dedup();
    gains.dedup();
    assert!(pitches.len() > 1);
    assert!(gains.len() > 1);
}

#[test]
fn empty_clickpack_is_ignored() {
    let mut bot = Bot::new();
    bot.set_config(deterministic_config());
    bot.set_clickpack(Clickpack::new());
    bot.on_init(1);
    // A pack with no samples plays nothing and leaves the timers alone.
    let before = bot.player1_state();
    assert!(bot.on_action(Button::Jump, false, true).is_none());
    assert_eq!(bot.player1_state(), before);
    assert_eq!(bot.on_death().len(), 0);
}

#[test]
fn on_death_scans_flags_held_before_routing_changed() {
    let mut bot = ready_bot();
    // Hold a button on player 1, then start routing everything to
    // player 2: the death scan still releases the flag it finds.
    bot.on_action(Button::Jump, false, true);
    assert!(bot.player1_state().held_jump);
    let mut c = *bot.conf();
    c.force_player2_sounds = true;
    bot.set_config(c);
    let cmds = bot.on_death();
    assert_eq!(cmds.len(), 1);
    assert!(!bot.player1_state().held_jump);
    assert!(!bot.player2_state().held_jump);
    // The synthesized release was routed to player 2.
    assert_eq!(bot.player2_state().last_release, bot.time_us());
}
