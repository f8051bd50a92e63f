use d2rmh::utils::{key_released, KEY_COUNT};

const DELETE: usize = 0x2E;

#[test]
fn a_key_that_goes_up_after_it_was_down_was_released() {
    let mut keys = [false; 255];
    assert!(!key_released(&mut keys, DELETE, true));
    assert!(keys[DELETE]);
    assert!(key_released(&mut keys, DELETE, false));
    assert!(!keys[DELETE]);
}

#[test]
fn a_release_is_told_once() {
    let mut keys = [false; 255];
    key_released(&mut keys, DELETE, true);
    assert!(key_released(&mut keys, DELETE, false));
    assert!(!key_released(&mut keys, DELETE, false));
    assert!(!key_released(&mut keys, DELETE, false));
}

#[test]
fn a_key_that_stays_down_was_not_released() {
    let mut keys = [false; 255];
    assert!(!key_released(&mut keys, DELETE, true));
    assert!(!key_released(&mut keys, DELETE, true));
    assert!(keys[DELETE]);
}

#[test]
fn a_key_that_was_never_down_was_not_released() {
    let mut keys = [false; 255];
    assert!(!key_released(&mut keys, DELETE, false));
    assert_eq!(keys, [false; 255]);
}

#[test]
fn each_key_has_a_state_of_its_own() {
    let mut keys = [false; 255];
    key_released(&mut keys, 0, true);
    key_released(&mut keys, KEY_COUNT - 1, true);
    assert!(!key_released(&mut keys, DELETE, false));
    let mut expected = [false; 255];
    expected[0] = true;
    expected[254] = true;
    assert_eq!(keys, expected);
    assert!(key_released(&mut keys, 254, false));
    expected[254] = false;
    assert_eq!(keys, expected);
    assert!(key_released(&mut keys, 0, false));
    assert_eq!(keys, [false; 255]);
}

#[test]
fn every_key_below_the_count_is_tracked() {
    assert_eq!(KEY_COUNT, 255);
    let mut keys = [true; 255];
    for key in 0..KEY_COUNT {
        assert!(key_released(&mut keys, key, false));
    }
    assert_eq!(keys, [false; 255]);
}
