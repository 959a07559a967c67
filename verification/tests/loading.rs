use zcblive::clickpack::find_noise_file;
use zcblive::clickpack::Clickpack;
use zcblive::clickpack::LoadClickpackFor;
use zcblive::clickpack::LoadError;
use zcblive::pack::FileEntry;
use zcblive::pack::LeafDir;
use zcblive::pack::PackDir;
use zcblive::pack::TopDir;
use zcblive::sample::SoundWrapper;

/// A sample distinguishable by its sample rate.
fn snd(rate: u32) -> SoundWrapper {
    SoundWrapper { sound: kittyaudio::Sound::from_frames(rate, &[]) }
}

fn file(name: &str, rate: u32) -> FileEntry {
    FileEntry { name: name.to_string(), sound: Some(snd(rate)) }
}

fn bad_file(name: &str) -> FileEntry {
    FileEntry { name: name.to_string(), sound: None }
}

fn leaf(name: &str, files: Vec<FileEntry>) -> LeafDir {
    LeafDir { name: name.to_string(), files }
}

fn top(name: &str, files: Vec<FileEntry>, subdirs: Vec<LeafDir>) -> TopDir {
    TopDir { name: name.to_string(), files, subdirs }
}

fn pack(name: &str, files: Vec<FileEntry>, dirs: Vec<TopDir>) -> PackDir {
    PackDir { name: name.to_string(), files, dirs }
}

#[test]
fn flat_layout_populates_player1() {
    let p = pack(
        "pack",
        vec![],
        vec![
            top("clicks", vec![file("a.wav", 100), file("b.wav", 101)], vec![]),
            top("releases", vec![file("c.wav", 102)], vec![]),
        ],
    );
    let mut cp = Clickpack::new();
    assert!(cp.load_from_path(&p, LoadClickpackFor::All).is_ok());
    assert_eq!(cp.num_sounds(), 3);
    assert_eq!(cp.bank(0).clicks, vec![snd(100), snd(101)]);
    assert_eq!(cp.bank(0).releases, vec![snd(102)]);
    for i in 1..6 {
        assert_eq!(cp.bank(i).num_sounds(), 0);
    }
    assert!(!cp.has_platformer_sounds());
    assert!(!cp.has_noise());
    assert_eq!(cp.name().as_str(), "pack");
}

#[test]
fn player_dirs_populate_their_banks() {
    let p = pack(
        "mypack",
        vec![],
        vec![
            top(
                "player1",
                vec![],
                vec![
                    leaf("clicks", vec![file("a.wav", 1), file("b.wav", 2)]),
                    leaf("softclicks", vec![file("c.wav", 3)]),
                ],
            ),
            top("player2", vec![], vec![leaf("releases", vec![file("d.wav", 4)])]),
            top("left1", vec![], vec![leaf("clicks", vec![file("e.wav", 5)])]),
        ],
    );
    let mut cp = Clickpack::new();
    assert!(cp.load_from_path(&p, LoadClickpackFor::All).is_ok());
    assert_eq!(cp.num_sounds(), 5);
    assert_eq!(cp.bank(0).clicks.len(), 2);
    assert_eq!(cp.bank(0).softclicks, vec![snd(3)]);
    assert_eq!(cp.bank(1).releases, vec![snd(4)]);
    assert_eq!(cp.bank(2).clicks, vec![snd(5)]);
    assert!(cp.has_platformer_sounds());
    let total: usize = (0..6).map(|i| cp.bank(i).num_sounds()).sum();
    assert_eq!(cp.num_sounds(), total);
}

#[test]
fn empty_pack_fails_with_no_clicks() {
    let p = pack("empty", vec![], vec![top("player1", vec![], vec![])]);
    let mut cp = Clickpack::new();
    assert_eq!(cp.load_from_path(&p, LoadClickpackFor::All), Err(LoadError::NoClicks));
    assert_eq!(cp.num_sounds(), 0);
}

#[test]
fn failed_decodes_are_skipped() {
    let p = pack(
        "pack",
        vec![],
        vec![top("clicks", vec![file("a.wav", 1), bad_file("broken.wav"), file("b.wav", 2)], vec![])],
    );
    let mut cp = Clickpack::new();
    assert!(cp.load_from_path(&p, LoadClickpackFor::All).is_ok());
    assert_eq!(cp.num_sounds(), 2);
    assert_eq!(cp.bank(0).clicks, vec![snd(1), snd(2)]);
}

#[test]
fn category_names_are_canonicalized() {
    let p = pack(
        "pack",
        vec![],
        vec![
            top(
                "player1",
                vec![],
                vec![
                    leaf("Soft_Clicks", vec![file("a.wav", 1)]),
                    leaf("HARDCLICKS", vec![file("b.wav", 2)]),
                    leaf("micro release", vec![file("c.wav", 3)]),
                    leaf("unrelated", vec![file("d.wav", 4)]),
                ],
            ),
        ],
    );
    let mut cp = Clickpack::new();
    assert!(cp.load_from_path(&p, LoadClickpackFor::All).is_ok());
    assert_eq!(cp.bank(0).softclicks, vec![snd(1)]);
    assert_eq!(cp.bank(0).hardclicks, vec![snd(2)]);
    assert_eq!(cp.bank(0).microreleases, vec![snd(3)]);
    assert_eq!(cp.num_sounds(), 3);
}

#[test]
fn later_directory_of_same_category_wins() {
    let p = pack(
        "pack",
        vec![],
        vec![
            top(
                "player1",
                vec![],
                vec![
                    leaf("clicks", vec![file("a.wav", 1)]),
                    leaf("Clicks", vec![file("b.wav", 2)]),
                ],
            ),
        ],
    );
    let mut cp = Clickpack::new();
    assert!(cp.load_from_path(&p, LoadClickpackFor::All).is_ok());
    assert_eq!(cp.bank(0).clicks, vec![snd(2)]);
}

#[test]
fn noise_is_found_in_player_dir_then_root() {
    let p = pack(
        "pack",
        vec![file("background.wav", 9)],
        vec![top(
            "player1",
            vec![file("whitenoise.wav", 8)],
            vec![leaf("clicks", vec![file("a.wav", 1)])],
        )],
    );
    let mut cp = Clickpack::new();
    assert!(cp.load_from_path(&p, LoadClickpackFor::All).is_ok());
    assert!(cp.has_noise());
    assert_eq!(cp.noise(), &Some(snd(8)));

    let p2 = pack(
        "pack",
        vec![file("noise.wav", 9)],
        vec![top("player1", vec![], vec![leaf("clicks", vec![file("a.wav", 1)])])],
    );
    let mut cp2 = Clickpack::new();
    assert!(cp2.load_from_path(&p2, LoadClickpackFor::All).is_ok());
    assert_eq!(cp2.noise(), &Some(snd(9)));
}

#[test]
fn find_noise_file_matches_prefixes_only() {
    let files = vec![
        file("click.wav", 1),
        file("pcnoise2.wav", 2),
        file("noisy.wav", 3),
    ];
    let found = find_noise_file(&files).expect("pcnoise2.wav matches");
    assert_eq!(found.name, "pcnoise2.wav");
    let none = vec![file("click.wav", 1), file("x.wav", 2)];
    assert!(find_noise_file(&none).is_none());
}

#[test]
fn targeted_reload_replaces_only_target() {
    let initial = pack(
        "full",
        vec![file("noise.wav", 50)],
        vec![
            top("player1", vec![], vec![leaf("clicks", vec![file("a.wav", 1)])]),
            top("player2", vec![], vec![leaf("clicks", vec![file("b.wav", 2)])]),
            top("left1", vec![], vec![leaf("clicks", vec![file("c.wav", 3)])]),
            top("right1", vec![], vec![leaf("clicks", vec![file("d.wav", 4)])]),
            top("left2", vec![], vec![leaf("clicks", vec![file("e.wav", 5)])]),
            top("right2", vec![], vec![leaf("clicks", vec![file("f.wav", 6)])]),
        ],
    );
    let mut cp = Clickpack::new();
    assert!(cp.load_from_path(&initial, LoadClickpackFor::All).is_ok());
    assert_eq!(cp.num_sounds(), 6);
    assert!(cp.has_noise());

    let replacement = pack("small", vec![], vec![top("clicks", vec![file("z.wav", 99)], vec![])]);
    assert!(cp.load_from_path(&replacement, LoadClickpackFor::Left2).is_ok());
    // Only the left2 bank changed; everything else, noise included, stays.
    assert_eq!(cp.bank(0).clicks, vec![snd(1)]);
    assert_eq!(cp.bank(1).clicks, vec![snd(2)]);
    assert_eq!(cp.bank(2).clicks, vec![snd(3)]);
    assert_eq!(cp.bank(3).clicks, vec![snd(4)]);
    assert_eq!(cp.bank(4).clicks, vec![snd(99)]);
    assert_eq!(cp.bank(5).clicks, vec![snd(6)]);
    assert_eq!(cp.noise(), &Some(snd(50)));
    assert_eq!(cp.name().as_str(), "small");
}

#[test]
fn targeted_load_prefers_same_named_subdir() {
    let p = pack(
        "pack",
        vec![],
        vec![
            top("player1", vec![], vec![leaf("clicks", vec![file("a.wav", 1)])]),
            top("player2", vec![], vec![leaf("clicks", vec![file("b.wav", 2)])]),
        ],
    );
    let mut cp = Clickpack::new();
    assert!(cp.load_from_path(&p, LoadClickpackFor::Player2).is_ok());
    // The first canonical subdirectory that yields samples is player1;
    // the targeted bank is filled from it.
    assert_eq!(cp.bank(1).clicks, vec![snd(1)]);
    assert_eq!(cp.bank(0).num_sounds(), 0);
}

#[test]
fn to_index_is_offset_by_one() {
    assert_eq!(LoadClickpackFor::All.to_index(), 0);
    assert_eq!(LoadClickpackFor::Player1.to_index(), 1);
    assert_eq!(LoadClickpackFor::Player2.to_index(), 2);
    assert_eq!(LoadClickpackFor::Left1.to_index(), 3);
    assert_eq!(LoadClickpackFor::Right1.to_index(), 4);
    assert_eq!(LoadClickpackFor::Left2.to_index(), 5);
    assert_eq!(LoadClickpackFor::Right2.to_index(), 6);
}
