use zcblive::game::GameManager;
use zcblive::game::PlayLayer;

#[test]
fn level_settings_sits_at_fixed_offset() {
    let gm = GameManager::new(0x1000);
    assert_eq!(gm.level_settings().addr, 0x1880);
    assert!(!gm.is_null());
    assert!(GameManager::new(0).is_null());
}

#[test]
fn null_handles_are_null() {
    assert!(PlayLayer::new(0).is_null());
    assert!(!PlayLayer::new(0xdead).is_null());
}
