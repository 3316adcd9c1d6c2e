//! The keyboard side of a front end: which key of the host stands for which
//! key of the machine, and how long a key stays held after it was pressed.

use vstd::prelude::*;
use crate::machine::KEY_COUNT;

verus! {

/// The number of cycles for which a key stays held after it was pressed.
pub const DEBOUNCE_DELAY: u8 = 25;

/// What `match_keycode_to_keypad` returns for a key that stands for none of
/// the machine's keys.
pub const NO_KEY: usize = 0xFFFF;

/// The keys of the host keyboard that a front end tells apart.
#[derive(Clone, Copy, Debug, PartialEq, Eq, Structural)]
pub enum Key {
    Num1,
    Num2,
    Num3,
    Num4,
    Q,
    W,
    E,
    R,
    A,
    S,
    D,
    F,
    Z,
    X,
    C,
    V,
    Escape,
    Other,
}

/// What the host reports to a front end.
#[derive(Clone, Copy, Debug, PartialEq, Eq, Structural)]
pub enum InputEvent {
    /// The window was asked to close.
    Quit,
    /// A key went down.
    KeyDown(Key),
    /// Anything else.
    Other,
}

/// The key of the machine that a key of the host stands for, or `NO_KEY`.
pub open spec fn keypad_place(key: Key) -> usize {
    match key {
        Key::Num1 => 0x1,
        Key::Num2 => 0x2,
        Key::Num3 => 0x3,
        Key::Num4 => 0xC,
        Key::Q => 0xC,
        Key::W => 0x4,
        Key::E => 0x5,
        Key::R => 0x6,
        Key::A => 0x7,
        Key::S => 0x8,
        Key::D => 0x9,
        Key::F => 0xE,
        Key::Z => 0xA,
        Key::X => 0x0,
        Key::C => 0xB,
        Key::V => 0xF,
        Key::Escape => NO_KEY,
        Key::Other => NO_KEY,
    }
}

/// The key of the machine that `x` stands for, or `NO_KEY`.
pub fn match_keycode_to_keypad(x: Key) -> (place: usize)
    ensures
        place == keypad_place(x),
        place < KEY_COUNT || place == NO_KEY,
{
    match x {
        Key::Num1 => 1,
        Key::Num2 => 2,
        Key::Num3 => 3,
        Key::Num4 => 0xC,
        Key::Q => 0xC,
        Key::W => 4,
        Key::E => 5,
        Key::R => 6,
        Key::A => 7,
        Key::S => 8,
        Key::D => 9,
        Key::F => 0xE,
        Key::Z => 0xA,
        Key::X => 0,
        Key::C => 0xB,
        Key::V => 0xF,
        _ => NO_KEY,
    }
}

/// Whether `event` ends the session: a request to quit, or the escape key.
pub open spec fn ends_session(event: InputEvent) -> bool {
    event == InputEvent::Quit || event == InputEvent::KeyDown(Key::Escape)
}

/// The key of the machine that `event` presses, or `NO_KEY`.
pub open spec fn pressed_place(event: InputEvent) -> usize {
    match event {
        InputEvent::KeyDown(key) => keypad_place(key),
        _ => NO_KEY,
    }
}

/// The times left after the start of a cycle: each is one cycle less,
/// unless it was up already.
pub open spec fn settled_remaining(remaining: Seq<u8>) -> Seq<u8> {
    Seq::new(
        KEY_COUNT as nat,
        |k: int|
            if remaining[k] > 0 {
                (remaining[k] - 1) as u8
            } else {
                0u8
            },
    )
}

/// The keypad after the start of a cycle: a key whose time was up is
/// released, the others are as they were.
pub open spec fn settled_keypad(remaining: Seq<u8>, keypad: Seq<u8>) -> Seq<u8> {
    Seq::new(
        KEY_COUNT as nat,
        |k: int|
            if remaining[k] > 0 {
                keypad[k]
            } else {
                0u8
            },
    )
}

/// For each key of the machine, the number of cycles for which it is still
/// held although the host has not reported it since.
pub struct Debounce {
    pub remaining: [u8; 16],
}

impl Debounce {
    /// No key is held.
    pub fn new() -> (debounce: Debounce)
        ensures
            forall|k: int| 0 <= k < KEY_COUNT ==> debounce.remaining@[k] == 0,
    {
        Debounce { remaining: [0; 16] }
    }

    /// The start of a cycle: a key whose time is up is released, and the
    /// time of every other key goes down by one cycle.
    pub fn settle(&mut self, keypad: &mut [u8; 16])
        ensures
            final(self).remaining@ == settled_remaining(old(self).remaining@),
            final(keypad)@ == settled_keypad(old(self).remaining@, old(keypad)@),
    {
        let mut k: usize = 0;
        while k < KEY_COUNT
            invariant
                k <= KEY_COUNT,
                forall|j: int|
                    0 <= j < KEY_COUNT ==> #[trigger] self.remaining@[j] == (if j < k {
                        settled_remaining(old(self).remaining@)[j]
                    } else {
                        old(self).remaining@[j]
                    }),
                forall|j: int|
                    0 <= j < KEY_COUNT ==> #[trigger] keypad@[j] == (if j < k {
                        settled_keypad(old(self).remaining@, old(keypad)@)[j]
                    } else {
                        old(keypad)@[j]
                    }),
            decreases KEY_COUNT - k,
        {
            if self.remaining[k] > 0 {
                self.remaining[k] = self.remaining[k] - 1;
            } else {
                keypad[k] = 0;
            }
            k += 1;
        }
    }

    /// Takes note of one event of the host, and tells whether the session
    /// goes on. A key that stands for a key of the machine presses it for
    /// `DEBOUNCE_DELAY` cycles; a request to quit and the escape key end the
    /// session; nothing else has an effect.
    pub fn handle_event(&mut self, keypad: &mut [u8; 16], event: InputEvent) -> (running: bool)
        ensures
            running == !ends_session(event),
            pressed_place(event) < KEY_COUNT ==> final(keypad)@ == old(keypad)@.update(
                pressed_place(event) as int,
                1u8,
            ) && final(self).remaining@ == old(self).remaining@.update(
                pressed_place(event) as int,
                DEBOUNCE_DELAY,
            ),
            pressed_place(event) >= KEY_COUNT ==> final(keypad)@ == old(keypad)@ && final(self).remaining@ == old(self).remaining@,
    {
        match event {
            InputEvent::Quit => false,
            InputEvent::KeyDown(Key::Escape) => false,
            InputEvent::KeyDown(key) => {
                let place = match_keycode_to_keypad(key);
                if place < NO_KEY {
                    keypad[place] = 1;
                    self.remaining[place] = DEBOUNCE_DELAY;
                }
                true
            },
            InputEvent::Other => true,
        }
    }
}

/// How long a front end waits after a cycle that took `elapsed_micros`
/// microseconds: nothing if it took sixteen or more, else a millisecond,
/// given in nanoseconds, for each microsecond short of sixteen.
pub fn pacing_nanos(elapsed_micros: u128) -> (nanos: Option<u32>)
    ensures
        elapsed_micros < 16 ==> nanos == Some((1_000_000 * (16 - elapsed_micros)) as u32),
        elapsed_micros >= 16 ==> nanos is None,
{
    if elapsed_micros < 16 {
        Some(1_000_000 * (16 - elapsed_micros as u32))
    } else {
        None
    }
}

} // verus!
