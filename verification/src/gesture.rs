//! Counting the quick presses of a multi-tap hotkey gesture.
use vstd::prelude::*;

verus! {

/// The longest pause between two presses of one gesture, in milliseconds.
pub const GESTURE_INTERVAL_MS: u32 = 520;

/// The time from `last` to `now` on a millisecond clock that wraps at 2^32.
pub open spec fn elapsed_ms(last: u32, now: u32) -> int {
    if now >= last {
        now - last
    } else {
        now + 0x1_0000_0000 - last
    }
}

/// The outcome of one press: `(taps, replay, triggered)`.
/// A pending sequence whose last press is more than the interval ago has expired: its
/// presses are to be replayed and this press starts a new sequence of one. Otherwise
/// the press is added (saturating at 255). Reaching `required_taps` triggers the
/// gesture and resets the count.
pub open spec fn gesture_step(current_taps: u8, last_tap_time: u32, now: u32, required_taps: u8) -> (
    u8,
    u8,
    bool,
) {
    let expired = current_taps > 0 && elapsed_ms(last_tap_time, now) > GESTURE_INTERVAL_MS;
    let replay: u8 = if expired {
        current_taps
    } else {
        0
    };
    let taps: u8 = if expired {
        1
    } else if current_taps < 255 {
        (current_taps + 1) as u8
    } else {
        255
    };
    if taps >= required_taps {
        (0, replay, true)
    } else {
        (taps, replay, false)
    }
}

/// Advances the gesture by one press at time `now`.
pub fn advance_gesture_tap(current_taps: u8, last_tap_time: u32, now: u32, required_taps: u8) -> (res: (
    u8,
    u8,
    bool,
))
    ensures
        res == gesture_step(current_taps, last_tap_time, now, required_taps),
{
    let elapsed: u64 = if now >= last_tap_time {
        (now - last_tap_time) as u64
    } else {
        (now as u64 + 0x1_0000_0000) - last_tap_time as u64
    };
    let expired = current_taps > 0 && elapsed > GESTURE_INTERVAL_MS as u64;
    let replay: u8 = if expired {
        current_taps
    } else {
        0
    };
    let taps: u8 = if expired {
        1
    } else if current_taps < 255 {
        current_taps + 1
    } else {
        255
    };
    if taps >= required_taps {
        (0, replay, true)
    } else {
        (taps, replay, false)
    }
}

/// A gesture fires exactly when the required number of presses is reached without a
/// pause longer than the interval, and presses are replayed only after such a pause.
pub proof fn lemma_gesture_fires_on_required_quick_press(
    current_taps: u8,
    last_tap_time: u32,
    now: u32,
    required_taps: u8,
)
    requires
        current_taps < 255,
        current_taps == 0 || elapsed_ms(last_tap_time, now) <= GESTURE_INTERVAL_MS,
    ensures
        gesture_step(current_taps, last_tap_time, now, required_taps).1 == 0,
        gesture_step(current_taps, last_tap_time, now, required_taps).2 <==> current_taps + 1
            >= required_taps,
{
}

} // verus!

verus! {

/// The virtual-key code of the A key.
pub const VK_A: u32 = 0x41;

/// Whether a virtual-key code is one of the Ctrl keys (either side).
pub open spec fn is_ctrl_key(vk: u32) -> bool {
    vk == 0x11 || vk == 0xA2 || vk == 0xA3
}

/// The progress of a multi-tap gesture between key events.
#[derive(Clone, Copy, Debug, PartialEq, Eq)]
pub struct GestureState {
    pub installed: bool,
    pub required_taps: u8,
    pub taps: u8,
    pub a_down: bool,
    pub last_tap_time: u32,
}

/// One keyboard event as the low-level hook sees it.
#[derive(Clone, Copy, Debug, PartialEq, Eq)]
pub struct KeyEvent {
    pub vk: u32,
    pub key_down: bool,
    pub key_up: bool,
    pub ctrl_down: bool,
    pub time: u32,
}

/// What the gesture timer should do after an event.
#[derive(Clone, Copy, Debug, PartialEq, Eq)]
pub enum TimerAction {
    Keep,
    Restart,
    Stop,
}

/// What the hook does after an event: replay presses, fire the gesture, swallow the
/// event, and what becomes of the timer.
#[derive(Clone, Copy, Debug, PartialEq, Eq)]
pub struct HookAction {
    pub replay: u8,
    pub trigger: bool,
    pub suppress: bool,
    pub timer: TimerAction,
}

impl GestureState {
    /// The state of a gesture that needs `required_taps` presses and has none yet.
    pub fn new(required_taps: u8) -> (res: GestureState)
        ensures
            res == (GestureState { installed: true, required_taps, taps: 0, a_down: false, last_tap_time: 0 }),
    {
        GestureState { installed: true, required_taps, taps: 0, a_down: false, last_tap_time: 0 }
    }

    /// The state when no gesture is watched.
    pub fn idle() -> (res: GestureState)
        ensures
            res == (GestureState { installed: false, required_taps: 0, taps: 0, a_down: false, last_tap_time: 0 }),
    {
        GestureState { installed: false, required_taps: 0, taps: 0, a_down: false, last_tap_time: 0 }
    }
}

/// The hook's response to one event. A Ctrl+A press counts as a tap (once per press,
/// while A stays down further presses are swallowed too); releasing A is swallowed;
/// releasing Ctrl, or pressing another key, ends a pending sequence and replays it.
pub open spec fn hook_step(s: GestureState, e: KeyEvent) -> (GestureState, HookAction) {
    let is_a = e.vk == VK_A;
    if s.installed && is_a && e.key_down && e.ctrl_down {
        if !s.a_down {
            let (taps, replay, triggered) = gesture_step(s.taps, s.last_tap_time, e.time, s.required_taps);
            (
                GestureState { taps, a_down: true, last_tap_time: e.time, ..s },
                HookAction {
                    replay,
                    trigger: triggered,
                    suppress: true,
                    timer: if triggered { TimerAction::Stop } else { TimerAction::Restart },
                },
            )
        } else {
            (s, HookAction { replay: 0, trigger: false, suppress: true, timer: TimerAction::Keep })
        }
    } else if s.installed && is_a && e.key_up && s.a_down {
        (
            GestureState { a_down: false, ..s },
            HookAction { replay: 0, trigger: false, suppress: true, timer: TimerAction::Keep },
        )
    } else if s.installed && s.taps > 0 && ((is_ctrl_key(e.vk) && e.key_up) || (e.key_down
        && !is_ctrl_key(e.vk))) {
        (
            GestureState { taps: 0, ..s },
            HookAction { replay: s.taps, trigger: false, suppress: false, timer: TimerAction::Stop },
        )
    } else {
        (s, HookAction { replay: 0, trigger: false, suppress: false, timer: TimerAction::Keep })
    }
}

/// Handles one keyboard event.
pub fn handle_key_event(state: GestureState, event: KeyEvent) -> (res: (GestureState, HookAction))
    ensures
        res == hook_step(state, event),
{
    let is_a = event.vk == VK_A;
    let is_ctrl = event.vk == 0x11 || event.vk == 0xA2 || event.vk == 0xA3;
    if state.installed && is_a && event.key_down && event.ctrl_down {
        if !state.a_down {
            let (taps, replay, triggered) = advance_gesture_tap(
                state.taps,
                state.last_tap_time,
                event.time,
                state.required_taps,
            );
            (
                GestureState { taps, a_down: true, last_tap_time: event.time, ..state },
                HookAction {
                    replay,
                    trigger: triggered,
                    suppress: true,
                    timer: if triggered {
                        TimerAction::Stop
                    } else {
                        TimerAction::Restart
                    },
                },
            )
        } else {
            (state, HookAction { replay: 0, trigger: false, suppress: true, timer: TimerAction::Keep })
        }
    } else if state.installed && is_a && event.key_up && state.a_down {
        (
            GestureState { a_down: false, ..state },
            HookAction { replay: 0, trigger: false, suppress: true, timer: TimerAction::Keep },
        )
    } else if state.installed && state.taps > 0 && ((is_ctrl && event.key_up) || (event.key_down
        && !is_ctrl)) {
        (
            GestureState { taps: 0, ..state },
            HookAction { replay: state.taps, trigger: false, suppress: false, timer: TimerAction::Stop },
        )
    } else {
        (state, HookAction { replay: 0, trigger: false, suppress: false, timer: TimerAction::Keep })
    }
}

/// The hook's response to an event that may have been injected by a program (as the
/// replayed presses are): an injected event is passed on untouched and changes nothing;
/// any other event is handled by `hook_step`.
pub open spec fn hook_step_from_source(s: GestureState, e: KeyEvent, injected: bool) -> (
    GestureState,
    HookAction,
) {
    if injected {
        (s, HookAction { replay: 0, trigger: false, suppress: false, timer: TimerAction::Keep })
    } else {
        hook_step(s, e)
    }
}

/// Handles one keyboard event together with the hook's injected flag, so that the
/// presses the gesture replays are never counted again.
pub fn handle_hook_event(state: GestureState, event: KeyEvent, injected: bool) -> (res: (
    GestureState,
    HookAction,
))
    ensures
        res == hook_step_from_source(state, event, injected),
{
    if injected {
        (state, HookAction { replay: 0, trigger: false, suppress: false, timer: TimerAction::Keep })
    } else {
        handle_key_event(state, event)
    }
}

/// Replayed presses are not counted again: an injected event leaves the gesture as it
/// was, fires nothing, replays nothing and is passed on.
pub proof fn lemma_injected_events_pass_through(s: GestureState, e: KeyEvent)
    ensures
        hook_step_from_source(s, e, true).0 == s,
        !hook_step_from_source(s, e, true).1.suppress,
        !hook_step_from_source(s, e, true).1.trigger,
        hook_step_from_source(s, e, true).1.replay == 0,
{
}

/// When the gesture timer fires, the pending presses are replayed and the count resets.
pub open spec fn timer_step(state: GestureState) -> (GestureState, u8) {
    (GestureState { taps: 0, ..state }, state.taps)
}

/// Handles the gesture timer.
pub fn handle_timer(state: GestureState) -> (res: (GestureState, u8))
    ensures
        res == timer_step(state),
{
    (GestureState { taps: 0, ..state }, state.taps)
}

/// A fresh Ctrl+A press is swallowed and recorded at its time. Within the interval it
/// adds one tap: below the required count the timer restarts and nothing fires; at the
/// required count the gesture fires, the count resets and the timer stops. After a
/// longer pause the pending presses are replayed first and this press starts anew.
pub proof fn lemma_ctrl_a_press_counts(s: GestureState, e: KeyEvent)
    requires
        s.installed,
        e.vk == VK_A,
        e.key_down,
        e.ctrl_down,
        !s.a_down,
        s.taps < 255,
    ensures
        ({
            let (t, a) = hook_step(s, e);
            let quick = s.taps == 0 || elapsed_ms(s.last_tap_time, e.time) <= GESTURE_INTERVAL_MS;
            &&& a.suppress
            &&& t.a_down && t.last_tap_time == e.time
            &&& t.installed && t.required_taps == s.required_taps
            &&& (quick && s.taps + 1 < s.required_taps) ==> t.taps == s.taps + 1 && a.replay == 0
                && !a.trigger && a.timer == TimerAction::Restart
            &&& (quick && s.taps + 1 >= s.required_taps) ==> t.taps == 0 && a.replay == 0 && a.trigger
                && a.timer == TimerAction::Stop
            &&& (!quick && 1 < s.required_taps) ==> t.taps == 1 && a.replay == s.taps && !a.trigger
                && a.timer == TimerAction::Restart
        }),
{
}

/// While A is held down, its repeats are swallowed and change nothing; releasing it is
/// swallowed too and only notes that it is up.
pub proof fn lemma_held_and_released_a_is_swallowed(s: GestureState, e: KeyEvent)
    requires
        s.installed,
        s.a_down,
        e.vk == VK_A,
    ensures
        (e.key_down && e.ctrl_down) ==> hook_step(s, e) == (
            s,
            HookAction { replay: 0, trigger: false, suppress: true, timer: TimerAction::Keep },
        ),
        (e.key_up && !(e.key_down && e.ctrl_down)) ==> hook_step(s, e) == (
            GestureState { a_down: false, ..s },
            HookAction { replay: 0, trigger: false, suppress: true, timer: TimerAction::Keep },
        ),
{
}

/// Without an installed gesture every event is passed on and nothing changes.
pub proof fn lemma_uninstalled_hook_passes_everything(s: GestureState, e: KeyEvent)
    requires
        !s.installed,
    ensures
        hook_step(s, e) == (
            s,
            HookAction { replay: 0, trigger: false, suppress: false, timer: TimerAction::Keep },
        ),
{
}

/// Typing any other key while presses are pending interrupts the gesture: the key is
/// passed on, the pending presses are replayed at once (so they reach the application
/// before it), the count resets and the timer stops. Releasing Ctrl does the same.
pub proof fn lemma_other_keys_flush_pending_presses(s: GestureState, e: KeyEvent)
    requires
        s.installed,
        s.taps > 0,
        e.vk != VK_A,
        (e.key_down && !(e.vk == 0x11 || e.vk == 0xA2 || e.vk == 0xA3)) || ((e.vk == 0x11 || e.vk
            == 0xA2 || e.vk == 0xA3) && e.key_up),
    ensures
        hook_step(s, e) == (
            GestureState { taps: 0, ..s },
            HookAction { replay: s.taps, trigger: false, suppress: false, timer: TimerAction::Stop },
        ),
{
}

/// A key that neither belongs to the gesture nor interrupts pending presses is passed on
/// untouched.
pub proof fn lemma_unrelated_keys_pass_through(s: GestureState, e: KeyEvent)
    requires
        e.vk != VK_A,
        s.taps == 0,
    ensures
        hook_step(s, e) == (
            s,
            HookAction { replay: 0, trigger: false, suppress: false, timer: TimerAction::Keep },
        ),
{
}

/// A single press that does not complete the gesture is held back, and passed on when
/// the gesture timer fires.
pub proof fn lemma_lone_press_is_passed_on_later(s: GestureState, e: KeyEvent)
    requires
        s.installed,
        s.taps == 0,
        !s.a_down,
        s.required_taps >= 2,
        e.vk == VK_A,
        e.key_down,
        e.ctrl_down,
    ensures
        ({
            let (t, a) = hook_step(s, e);
            &&& a.suppress && !a.trigger && a.replay == 0
            &&& a.timer == TimerAction::Restart
            &&& timer_step(t).1 == 1
        }),
{
}

/// Every Ctrl+A press that the hook swallows is either counted toward the gesture or
/// replayed later: the pending count plus what is replayed now never loses a press,
/// unless the press fires the gesture.
pub proof fn lemma_swallowed_presses_are_kept(s: GestureState, e: KeyEvent)
    requires
        s.installed,
        e.vk == VK_A,
        e.key_down,
        e.ctrl_down,
        !s.a_down,
        s.taps < 255,
    ensures
        ({
            let (t, a) = hook_step(s, e);
            a.suppress && (a.trigger || t.taps + a.replay == s.taps + 1)
        }),
{
}

} // verus!

verus! {

/// The virtual-key code of the Ctrl key.
pub const VK_CONTROL: u16 = 0x11;

/// One synthesized key event: the key and whether it is a release.
#[derive(Clone, Copy, Debug, PartialEq, Eq)]
pub struct KeyStroke {
    pub vk: u16,
    pub key_up: bool,
}

/// The keys that replay `count` swallowed Ctrl+A presses: for each press, Ctrl down,
/// A down, A up.
pub open spec fn replay_strokes(count: nat) -> Seq<KeyStroke>
    decreases count,
{
    if count == 0 {
        Seq::empty()
    } else {
        replay_strokes((count - 1) as nat) + seq![
            KeyStroke { vk: VK_CONTROL, key_up: false },
            KeyStroke { vk: 0x41, key_up: false },
            KeyStroke { vk: 0x41, key_up: true },
        ]
    }
}

/// The key events that replay `count` swallowed Ctrl+A presses.
pub fn replay_sequence(count: u8) -> (res: Vec<KeyStroke>)
    ensures
        res@ == replay_strokes(count as nat),
{
    let mut res: Vec<KeyStroke> = Vec::new();
    let mut i: u8 = 0;
    while i < count
        invariant
            i <= count,
            res@ == replay_strokes(i as nat),
        decreases count - i,
    {
        res.push(KeyStroke { vk: VK_CONTROL, key_up: false });
        res.push(KeyStroke { vk: 0x41, key_up: false });
        res.push(KeyStroke { vk: 0x41, key_up: true });
        i = i + 1;
        assert(res@ =~= replay_strokes(i as nat));
    }
    res
}

} // verus!
