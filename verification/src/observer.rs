//! The input observer: how genuine button transitions and hotkey samples
//! change the shared state.

use vstd::prelude::*;
use crate::clicker::{AutoClicker, ClickerView};

verus! {

/// How long an observer that polls sleeps between two polls, in
/// milliseconds. A shorter interval sees a transition sooner and costs more
/// wake-ups; a key pressed and released within one interval is missed.
pub const POLL_INTERVAL_MS: u64 = 10;

/// Bit of a polled pointer mask that is set while the left button is down.
pub const BUTTON1_MASK: u32 = 0x100;

/// Bit of a polled pointer mask that is set while the right button is down.
pub const BUTTON3_MASK: u32 = 0x400;

/// Flag bit that a low-level mouse hook sets on events injected by software.
pub const HOOK_INJECTED: u32 = 0x1;

pub const MSG_LEFT_DOWN: u32 = 0x0201;

pub const MSG_LEFT_UP: u32 = 0x0202;

pub const MSG_RIGHT_DOWN: u32 = 0x0204;

pub const MSG_RIGHT_UP: u32 = 0x0205;

pub const MSG_NC_LEFT_DOWN: u32 = 0x00A1;

pub const MSG_NC_LEFT_UP: u32 = 0x00A2;

pub const MSG_NC_RIGHT_DOWN: u32 = 0x00A4;

pub const MSG_NC_RIGHT_UP: u32 = 0x00A5;

pub const MSG_KEY_DOWN: u32 = 0x0100;

pub const MSG_KEY_UP: u32 = 0x0101;

/// Virtual-key code of the hotkey, F6.
pub const HOTKEY_VK: u32 = 0x75;

/// A tracked mouse button.
#[derive(PartialEq, Eq, Structural, Clone, Copy, Debug)]
pub enum MouseButton {
    Left,
    Right,
}

/// A genuine transition of a tracked button.
#[derive(PartialEq, Eq, Structural, Clone, Copy, Debug)]
pub struct ButtonEvent {
    pub button: MouseButton,
    pub pressed: bool,
}

/// The state after a genuine button transition: the flag of that button
/// follows the transition, everything else stays.
pub open spec fn spec_record_button(s: ClickerView, event: ButtonEvent) -> ClickerView {
    match event.button {
        MouseButton::Left => ClickerView { left_held: event.pressed, ..s },
        MouseButton::Right => ClickerView { right_held: event.pressed, ..s },
    }
}

/// Whether bit `index` (0 is the lowest) of `mask` is set.
pub open spec fn spec_bit_set(mask: u32, index: nat) -> bool
    recommends
        index < 32,
{
    (mask as nat / vstd::arithmetic::power2::pow2(index)) % 2 == 1
}

/// The state after a poll of the pointer: both flags follow the mask's
/// button bits (bit 8 for the left button, bit 10 for the right one).
pub open spec fn spec_record_pointer_mask(s: ClickerView, mask: u32) -> ClickerView {
    ClickerView { left_held: spec_bit_set(mask, 8), right_held: spec_bit_set(mask, 10), ..s }
}

/// What a low-level mouse hook call means: a transition of a tracked button,
/// unless the call carries no event (`n_code < 0`), the event was injected,
/// or the message is about something else.
pub open spec fn spec_decode_mouse_hook(n_code: i32, message: u32, flags: u32) -> Option<
    ButtonEvent,
> {
    if n_code < 0 || flags & HOOK_INJECTED != 0 {
        None
    } else if message == MSG_LEFT_DOWN || message == MSG_NC_LEFT_DOWN {
        Some(ButtonEvent { button: MouseButton::Left, pressed: true })
    } else if message == MSG_LEFT_UP || message == MSG_NC_LEFT_UP {
        Some(ButtonEvent { button: MouseButton::Left, pressed: false })
    } else if message == MSG_RIGHT_DOWN || message == MSG_NC_RIGHT_DOWN {
        Some(ButtonEvent { button: MouseButton::Right, pressed: true })
    } else if message == MSG_RIGHT_UP || message == MSG_NC_RIGHT_UP {
        Some(ButtonEvent { button: MouseButton::Right, pressed: false })
    } else {
        None
    }
}

/// What a low-level keyboard hook call says of the hotkey: `Some(true)` for a
/// press, `Some(false)` for a release, `None` for anything else.
pub open spec fn spec_decode_keyboard_hook(n_code: i32, vk_code: u32, message: u32) -> Option<
    bool,
> {
    if n_code < 0 || vk_code != HOTKEY_VK {
        None
    } else if message == MSG_KEY_DOWN {
        Some(true)
    } else if message == MSG_KEY_UP {
        Some(false)
    } else {
        None
    }
}

/// Whether a polled keymap (32 bytes, key `8 * n + b` in bit `b` of byte `n`)
/// shows `keycode` as down.
pub open spec fn spec_key_is_down(keys: Seq<u8>, keycode: u8) -> bool
    recommends
        keys.len() == 32,
{
    keys[(keycode / 8) as int] & (1u8 << (keycode % 8)) != 0
}

/// The state after a completed hotkey gesture: the running flag flips, and
/// where it flips to false both held flags are cleared.
pub open spec fn spec_hotkey_toggle(s: ClickerView) -> ClickerView {
    if s.running {
        ClickerView { running: false, left_held: false, right_held: false, ..s }
    } else {
        ClickerView { running: true, ..s }
    }
}

/// One sample of the hotkey: a pressed sample arms the latch, a released
/// sample on an armed latch completes the gesture, and anything else changes
/// nothing.
pub open spec fn spec_hotkey_step(latched: bool, s: ClickerView, pressed: bool) -> (
    bool,
    ClickerView,
) {
    if pressed {
        (true, s)
    } else if latched {
        (false, spec_hotkey_toggle(s))
    } else {
        (false, s)
    }
}

/// The latch and the state after a run of hotkey samples, first to last.
pub open spec fn spec_hotkey_run(latched: bool, s: ClickerView, samples: Seq<bool>) -> (
    bool,
    ClickerView,
)
    decreases samples.len(),
{
    if samples.len() == 0 {
        (latched, s)
    } else {
        let next = spec_hotkey_step(latched, s, samples[0]);
        spec_hotkey_run(next.0, next.1, samples.skip(1))
    }
}

/// How many gestures a run of hotkey samples completes.
pub open spec fn spec_gesture_count(latched: bool, samples: Seq<bool>) -> nat
    decreases samples.len(),
{
    if samples.len() == 0 {
        0
    } else if samples[0] {
        spec_gesture_count(true, samples.skip(1))
    } else if latched {
        1 + spec_gesture_count(false, samples.skip(1))
    } else {
        spec_gesture_count(false, samples.skip(1))
    }
}

/// A key held through `repeats` pressed samples and then released.
pub open spec fn spec_held_then_released(repeats: nat) -> Seq<bool> {
    Seq::new(repeats, |i: int| true).push(false)
}

pub fn decode_mouse_hook(n_code: i32, message: u32, flags: u32) -> (event: Option<ButtonEvent>)
    ensures
        event == spec_decode_mouse_hook(n_code, message, flags),
{
    if n_code < 0 || flags & HOOK_INJECTED != 0 {
        return None;
    }
    if message == MSG_LEFT_DOWN || message == MSG_NC_LEFT_DOWN {
        Some(ButtonEvent { button: MouseButton::Left, pressed: true })
    } else if message == MSG_LEFT_UP || message == MSG_NC_LEFT_UP {
        Some(ButtonEvent { button: MouseButton::Left, pressed: false })
    } else if message == MSG_RIGHT_DOWN || message == MSG_NC_RIGHT_DOWN {
        Some(ButtonEvent { button: MouseButton::Right, pressed: true })
    } else if message == MSG_RIGHT_UP || message == MSG_NC_RIGHT_UP {
        Some(ButtonEvent { button: MouseButton::Right, pressed: false })
    } else {
        None
    }
}

pub fn decode_keyboard_hook(n_code: i32, vk_code: u32, message: u32) -> (sample: Option<bool>)
    ensures
        sample == spec_decode_keyboard_hook(n_code, vk_code, message),
{
    if n_code < 0 || vk_code != HOTKEY_VK {
        None
    } else if message == MSG_KEY_DOWN {
        Some(true)
    } else if message == MSG_KEY_UP {
        Some(false)
    } else {
        None
    }
}

pub fn key_is_down(keys: &[u8; 32], keycode: u8) -> (down: bool)
    ensures
        down == spec_key_is_down(keys@, keycode),
{
    let index: usize = (keycode / 8) as usize;
    let bit: u8 = keycode % 8;
    keys[index] & (1u8 << bit) != 0
}

/// Sets the held flag of the event's button.
pub fn record_button(state: &mut AutoClicker, event: ButtonEvent)
    ensures
        final(state)@ == spec_record_button(old(state)@, event),
{
    let left = state.left_pressed();
    let right = state.right_pressed();
    match event.button {
        MouseButton::Left => state.set_held(event.pressed, right),
        MouseButton::Right => state.set_held(left, event.pressed),
    }
}

/// Takes both held flags from a polled pointer mask.
pub fn record_pointer_mask(state: &mut AutoClicker, mask: u32)
    ensures
        final(state)@ == spec_record_pointer_mask(old(state)@, mask),
{
    let left = mask & BUTTON1_MASK != 0;
    let right = mask & BUTTON3_MASK != 0;
    proof {
        vstd::arithmetic::power2::lemma2_to64();
        assert((mask & 0x100 != 0) == ((mask / 0x100) % 2 == 1)) by (bit_vector);
        assert((mask & 0x400 != 0) == ((mask / 0x400) % 2 == 1)) by (bit_vector);
    }
    state.set_held(left, right);
}

/// Applies one low-level mouse hook call; returns whether it carried a
/// genuine transition of a tracked button.
pub fn record_mouse_hook(state: &mut AutoClicker, n_code: i32, message: u32, flags: u32) -> (genuine:
    bool)
    ensures
        genuine == spec_decode_mouse_hook(n_code, message, flags).is_some(),
        final(state)@ == match spec_decode_mouse_hook(n_code, message, flags) {
            Some(event) => spec_record_button(old(state)@, event),
            None => old(state)@,
        },
{
    match decode_mouse_hook(n_code, message, flags) {
        Some(event) => {
            record_button(state, event);
            true
        },
        None => false,
    }
}

/// The "was pressed at the last sample" latch that turns hotkey samples into
/// gestures.
pub struct HotkeyLatch {
    armed: bool,
}

impl HotkeyLatch {
    /// Whether a press has been seen that no release has answered yet.
    pub closed spec fn latched(&self) -> bool {
        self.armed
    }

    pub fn new() -> (latch: Self)
        ensures
            !latch.latched(),
    {
        HotkeyLatch { armed: false }
    }

    pub fn is_latched(&self) -> (armed: bool)
        ensures
            armed == self.latched(),
    {
        self.armed
    }

    /// Feeds one sample of the hotkey (`pressed`: down or up); returns whether
    /// it completed a gesture and so toggled the running flag.
    pub fn on_sample(&mut self, state: &mut AutoClicker, pressed: bool) -> (toggled: bool)
        ensures
            (final(self).latched(), final(state)@) == spec_hotkey_step(
                old(self).latched(),
                old(state)@,
                pressed,
            ),
            toggled == (old(self).latched() && !pressed),
            toggled == (final(state)@.running != old(state)@.running),
            old(state)@.running && toggled ==> !final(state)@.running && !final(state)@.left_held
                && !final(state)@.right_held,
    {
        if pressed {
            self.armed = true;
            false
        } else if self.armed {
            self.armed = false;
            state.toggle_running();
            if !state.is_running() {
                state.set_held(false, false);
            }
            true
        } else {
            false
        }
    }

    /// Feeds a batch of samples, first to last; returns how many gestures
    /// they completed.
    pub fn on_samples(&mut self, state: &mut AutoClicker, samples: &[bool]) -> (gestures: usize)
        ensures
            (final(self).latched(), final(state)@) == spec_hotkey_run(
                old(self).latched(),
                old(state)@,
                samples@,
            ),
            gestures == spec_gesture_count(old(self).latched(), samples@),
            final(state)@.running == (old(state)@.running != (gestures % 2 == 1)),
    {
        let mut gestures: usize = 0;
        let mut i: usize = 0;
        assert(samples@.skip(0) =~= samples@);
        while i < samples.len()
            invariant
                i <= samples.len(),
                gestures <= i,
                spec_hotkey_run(old(self).latched(), old(state)@, samples@) == spec_hotkey_run(
                    self.latched(),
                    state@,
                    samples@.skip(i as int),
                ),
                spec_gesture_count(old(self).latched(), samples@) == gestures + spec_gesture_count(
                    self.latched(),
                    samples@.skip(i as int),
                ),
            decreases samples.len() - i,
        {
            assert(samples@.skip(i as int).skip(1) =~= samples@.skip(i + 1));
            if self.on_sample(state, samples[i]) {
                gestures += 1;
            }
            i += 1;
        }
        proof {
            assert(samples@.skip(i as int) =~= Seq::<bool>::empty());
            lemma_run_follows_gesture_count(old(self).latched(), old(state)@, samples@);
        }
        gestures
    }

    /// Applies one low-level keyboard hook call; returns whether it completed
    /// a gesture.
    pub fn on_keyboard_hook(
        &mut self,
        state: &mut AutoClicker,
        n_code: i32,
        vk_code: u32,
        message: u32,
    ) -> (toggled: bool)
        ensures
            (final(self).latched(), final(state)@) == match spec_decode_keyboard_hook(
                n_code,
                vk_code,
                message,
            ) {
                Some(pressed) => spec_hotkey_step(old(self).latched(), old(state)@, pressed),
                None => (old(self).latched(), old(state)@),
            },
            toggled == (final(state)@.running != old(state)@.running),
    {
        match decode_keyboard_hook(n_code, vk_code, message) {
            Some(pressed) => self.on_sample(state, pressed),
            None => false,
        }
    }
}

/// A run of samples changes the running flag exactly when it completes an odd
/// number of gestures, and never touches the bounds, the mode or the title.
pub proof fn lemma_run_follows_gesture_count(latched: bool, s: ClickerView, samples: Seq<bool>)
    ensures
        spec_hotkey_run(latched, s, samples).1.running == (s.running != (spec_gesture_count(
            latched,
            samples,
        ) % 2 == 1)),
        spec_hotkey_run(latched, s, samples).1.min_cps == s.min_cps,
        spec_hotkey_run(latched, s, samples).1.max_cps == s.max_cps,
        spec_hotkey_run(latched, s, samples).1.mode == s.mode,
        spec_hotkey_run(latched, s, samples).1.window_title == s.window_title,
    decreases samples.len(),
{
    if samples.len() > 0 {
        let next = spec_hotkey_step(latched, s, samples[0]);
        lemma_run_follows_gesture_count(next.0, next.1, samples.skip(1));
    }
}

/// A key that is held through any number of repeated press samples and then
/// released completes exactly one gesture: the running flag flips once, the
/// latch is clear again, and the state is that of a single toggle.
pub proof fn lemma_held_key_toggles_once(latched: bool, s: ClickerView, repeats: nat)
    requires
        repeats >= 1 || latched,
    ensures
        spec_gesture_count(latched, spec_held_then_released(repeats)) == 1,
        spec_hotkey_run(latched, s, spec_held_then_released(repeats)) == (
            false,
            spec_hotkey_toggle(s),
        ),
        spec_hotkey_run(latched, s, spec_held_then_released(repeats)).1.running != s.running,
    decreases repeats,
{
    let samples = spec_held_then_released(repeats);
    if repeats == 0 {
        assert(samples.skip(1) =~= Seq::<bool>::empty());
        assert(spec_gesture_count(false, samples.skip(1)) == 0);
        assert(spec_hotkey_run(false, spec_hotkey_toggle(s), samples.skip(1)) == (
            false,
            spec_hotkey_toggle(s),
        ));
    } else {
        assert(samples.skip(1) =~= spec_held_then_released((repeats - 1) as nat));
        lemma_held_key_toggles_once(true, s, (repeats - 1) as nat);
    }
}

/// Samples that never show the key down complete no gesture on a clear latch.
pub proof fn lemma_released_samples_change_nothing(s: ClickerView, samples: Seq<bool>)
    requires
        forall|i: int| 0 <= i < samples.len() ==> !samples[i],
    ensures
        spec_gesture_count(false, samples) == 0,
        spec_hotkey_run(false, s, samples) == (false, s),
    decreases samples.len(),
{
    if samples.len() > 0 {
        lemma_released_samples_change_nothing(s, samples.skip(1));
    }
}

/// Whenever a hotkey sample takes the running flag from true to false, both
/// held flags are false afterwards, whatever they were.
pub proof fn lemma_hotkey_stop_clears_held(latched: bool, s: ClickerView, pressed: bool)
    requires
        s.running,
        !spec_hotkey_step(latched, s, pressed).1.running,
    ensures
        !spec_hotkey_step(latched, s, pressed).1.left_held,
        !spec_hotkey_step(latched, s, pressed).1.right_held,
{
}

} // verus!
