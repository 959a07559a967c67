use zcblive::click_type::Button;
use zcblive::click_type::ClickType;
use zcblive::click_type::Timings;
use zcblive::utils::capitalize_first_letter;

fn default_timings() -> Timings {
    Timings::default()
}

#[test]
fn strength_classification() {
    let t = default_timings();
    assert_eq!(ClickType::from_time(true, 20_000, &t), ClickType::MicroClick);
    assert_eq!(ClickType::from_time(true, 100_000, &t), ClickType::SoftClick);
    assert_eq!(ClickType::from_time(true, 500_000, &t), ClickType::Click);
    assert_eq!(ClickType::from_time(true, 3_000_000, &t), ClickType::HardClick);
    assert_eq!(ClickType::from_time(false, 500_000, &t), ClickType::Release);
}

#[test]
fn classification_at_thresholds_lands_low() {
    let t = default_timings();
    // A gap exactly at a threshold lands in the lower bin.
    assert_eq!(ClickType::from_time(true, 25_000, &t), ClickType::MicroClick);
    assert_eq!(ClickType::from_time(true, 25_001, &t), ClickType::SoftClick);
    assert_eq!(ClickType::from_time(true, 150_000, &t), ClickType::SoftClick);
    assert_eq!(ClickType::from_time(true, 150_001, &t), ClickType::Click);
    assert_eq!(ClickType::from_time(true, 2_000_000, &t), ClickType::Click);
    assert_eq!(ClickType::from_time(true, 2_000_001, &t), ClickType::HardClick);
}

#[test]
fn classification_parity_matches_push() {
    let t = default_timings();
    for dt in [0u64, 10, 25_000, 100_000, 150_000, 1_000_000, 5_000_000] {
        assert!(ClickType::from_time(true, dt, &t).is_click());
        assert!(!ClickType::from_time(true, dt, &t).is_release());
        assert!(ClickType::from_time(false, dt, &t).is_release());
        assert!(!ClickType::from_time(false, dt, &t).is_click());
    }
}

#[test]
fn strength_is_monotone_in_gap() {
    let t = default_timings();
    let strength = |ct: ClickType| match ct {
        ClickType::HardClick | ClickType::HardRelease => 3,
        ClickType::Click | ClickType::Release => 2,
        ClickType::SoftClick | ClickType::SoftRelease => 1,
        ClickType::MicroClick | ClickType::MicroRelease => 0,
        ClickType::Skip => -1,
    };
    let gaps = [0u64, 10_000, 25_000, 90_000, 150_000, 600_000, 2_000_000, 9_000_000];
    for w in gaps.windows(2) {
        assert!(
            strength(ClickType::from_time(true, w[0], &t))
                <= strength(ClickType::from_time(true, w[1], &t))
        );
        assert!(
            strength(ClickType::from_time(false, w[0], &t))
                <= strength(ClickType::from_time(false, w[1], &t))
        );
    }
}

#[test]
fn preferred_starts_with_self_and_keeps_parity() {
    let real = [
        ClickType::HardClick,
        ClickType::HardRelease,
        ClickType::Click,
        ClickType::Release,
        ClickType::SoftClick,
        ClickType::SoftRelease,
        ClickType::MicroClick,
        ClickType::MicroRelease,
    ];
    for ct in real {
        let p = ct.preferred();
        assert_eq!(p[0], ct);
        for i in 0..4 {
            assert_eq!(p[i].is_click(), ct.is_click());
        }
        for i in 0..8 {
            assert_ne!(p[i], ClickType::Skip);
            for j in (i + 1)..8 {
                assert_ne!(p[i], p[j]);
            }
        }
    }
}

#[test]
fn preferred_concrete_orderings() {
    let hc = ClickType::HardClick;
    let hr = ClickType::HardRelease;
    let c = ClickType::Click;
    let r = ClickType::Release;
    let sc = ClickType::SoftClick;
    let sr = ClickType::SoftRelease;
    let mc = ClickType::MicroClick;
    let mr = ClickType::MicroRelease;
    assert_eq!(hc.preferred(), [hc, c, sc, mc, hr, r, sr, mr]);
    assert_eq!(c.preferred(), [c, hc, sc, mc, r, hr, sr, mr]);
    assert_eq!(sc.preferred(), [sc, mc, c, hc, sr, mr, r, hr]);
    assert_eq!(mc.preferred(), [mc, sc, c, hc, mr, sr, r, hr]);
    assert_eq!(r.preferred(), [r, hr, sr, mr, c, hc, sc, mc]);
    assert_eq!(ClickType::Skip.preferred(), [ClickType::Skip; 8]);
}

#[test]
fn button_codes_and_platformer() {
    assert_eq!(Button::from_u8(1), Button::Jump);
    assert_eq!(Button::from_u8(2), Button::Left);
    assert_eq!(Button::from_u8(3), Button::Right);
    assert!(!Button::Jump.is_platformer());
    assert!(Button::Left.is_platformer());
    assert!(Button::Right.is_platformer());
}

#[test]
fn capitalize_first_letter_works() {
    assert_eq!(capitalize_first_letter("hello"), "Hello");
    assert_eq!(capitalize_first_letter(""), "");
    assert_eq!(capitalize_first_letter("a"), "A");
    assert_eq!(capitalize_first_letter("Already"), "Already");
}
