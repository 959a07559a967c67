use zcblive::click_type::Button;
use zcblive::click_type::ClickType;
use zcblive::clickpack::Clickpack;
use zcblive::clickpack::LoadClickpackFor;
use zcblive::pack::FileEntry;
use zcblive::pack::LeafDir;
use zcblive::pack::PackDir;
use zcblive::pack::TopDir;
use zcblive::sample::SoundWrapper;

fn snd(rate: u32) -> SoundWrapper {
    SoundWrapper { sound: kittyaudio::Sound::from_frames(rate, &[]) }
}

fn file(name: &str, rate: u32) -> FileEntry {
    FileEntry { name: name.to_string(), sound: Some(snd(rate)) }
}

fn leaf(name: &str, files: Vec<FileEntry>) -> LeafDir {
    LeafDir { name: name.to_string(), files }
}

fn top(name: &str, subdirs: Vec<LeafDir>) -> TopDir {
    TopDir { name: name.to_string(), files: vec![], subdirs }
}

fn load(dirs: Vec<TopDir>) -> Clickpack {
    let p = PackDir { name: "pack".to_string(), files: vec![], dirs };
    let mut cp = Clickpack::new();
    cp.load_from_path(&p, LoadClickpackFor::All).expect("pack has sounds");
    cp
}

#[test]
fn fallback_lattice_within_bank() {
    // Only plain clicks and releases exist; every strength falls back to
    // them, staying on its own parity.
    let cp = load(vec![top(
        "player1",
        vec![
            leaf("clicks", vec![file("c.wav", 1)]),
            leaf("releases", vec![file("r.wav", 2)]),
        ],
    )]);
    assert_eq!(*cp.get_random_click(ClickType::HardClick, false, Button::Jump), snd(1));
    assert_eq!(*cp.get_random_click(ClickType::MicroClick, false, Button::Jump), snd(1));
    assert_eq!(*cp.get_random_click(ClickType::MicroRelease, false, Button::Jump), snd(2));
    assert_eq!(*cp.get_random_click(ClickType::HardRelease, false, Button::Jump), snd(2));
}

#[test]
fn cross_bank_fallback_to_player2() {
    // Only player2 has sounds; player 1 events fall through to it, and a
    // platformer button without platformer banks still lands there.
    let cp = load(vec![top("player2", vec![leaf("clicks", vec![file("c.wav", 7)])])]);
    assert!(!cp.has_platformer_sounds());
    assert_eq!(*cp.get_random_click(ClickType::Click, false, Button::Jump), snd(7));
    assert_eq!(*cp.get_random_click(ClickType::Click, false, Button::Left), snd(7));
    assert_eq!(*cp.get_random_click(ClickType::Click, true, Button::Right), snd(7));
}

#[test]
fn own_bank_is_preferred() {
    let cp = load(vec![
        top("player1", vec![leaf("clicks", vec![file("a.wav", 1)])]),
        top("player2", vec![leaf("clicks", vec![file("b.wav", 2)])]),
        top("left1", vec![leaf("clicks", vec![file("c.wav", 3)])]),
    ]);
    assert_eq!(*cp.get_random_click(ClickType::Click, false, Button::Jump), snd(1));
    assert_eq!(*cp.get_random_click(ClickType::Click, true, Button::Jump), snd(2));
    assert_eq!(*cp.get_random_click(ClickType::Click, false, Button::Left), snd(3));
    // Right on player 1 has no right1 bank; the order tries left1 next.
    assert_eq!(*cp.get_random_click(ClickType::Click, false, Button::Right), snd(3));
}

#[test]
fn bank_order_is_consulted_before_parity() {
    // player1 has only releases. A click event checks the whole
    // preference list of player1 before moving to player2, so player1's
    // release bucket wins over player2's click bucket.
    let cp = load(vec![
        top("player1", vec![leaf("releases", vec![file("r.wav", 1)])]),
        top("player2", vec![leaf("clicks", vec![file("c.wav", 2)])]),
    ]);
    assert_eq!(*cp.get_random_click(ClickType::Click, false, Button::Jump), snd(1));
}

#[test]
fn random_choice_stays_in_first_nonempty_bucket() {
    let cp = load(vec![top(
        "player1",
        vec![
            leaf("clicks", vec![file("a.wav", 1), file("b.wav", 2), file("c.wav", 3)]),
            leaf("releases", vec![file("r.wav", 10)]),
        ],
    )]);
    fastrand::seed(123);
    let allowed = [snd(1), snd(2), snd(3)];
    for _ in 0..50 {
        let s = cp.get_random_click(ClickType::SoftClick, false, Button::Jump);
        assert!(allowed.iter().any(|a| a == s));
    }
}
