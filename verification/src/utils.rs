use vstd::prelude::*;

verus! {

/// Number of keys whose state is tracked; the keys are `0..KEY_COUNT`.
pub const KEY_COUNT: usize = 255;

/// Tells whether `key` was released since it was last looked at. `pressed`
/// is the state of the key now, and `pressed_keys` holds for each key the
/// state it had when it was last looked at: the key was released if it was
/// down then and is up now. The state of `key` is brought up to date; that
/// of every other key stays.
pub fn key_released(pressed_keys: &mut [bool; 255], key: usize, pressed: bool) -> (released: bool)
    requires
        key < KEY_COUNT,
    ensures
        released == (!pressed && old(pressed_keys)@[key as int]),
        final(pressed_keys)@ == old(pressed_keys)@.update(key as int, pressed),
{
    let was_pressed = pressed_keys[key];
    pressed_keys[key] = pressed;
    !pressed && was_pressed
}

} // verus!
