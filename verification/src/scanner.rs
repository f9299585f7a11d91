//! The gesture detector: a state machine over the global input event stream.
//!
//! Two independent sub-machines share the state: double-press counting on the
//! configured trigger key, and selection-then-move (drag, release, confirming
//! movement). Each incoming event is one `handle_event` step; the transition
//! itself is the spec function `step`, so every property of the detector is a
//! statement about `step`. The platform listener loop that feeds events, and
//! the delivery of the emitted signals, live outside this crate.
//!
//! Positions are device pixels as integers; distances compare squared
//! Euclidean lengths, which is exact for the integral thresholds used here
//! (more than 30 pixels means squared distance above 900, more than 40 means
//! above 1600). Times are milliseconds on one monotone clock.

use vstd::prelude::*;

verus! {

/// How long an armed pending selection stays valid.
pub const SELECTION_WINDOW_MS: u64 = 2000;

/// Squared distance a pointer move must exceed to confirm a selection.
pub const MOVE_THRESHOLD_SQ: i64 = 900;

/// Squared distance a drag must exceed at release to arm a pending selection.
pub const DRAG_THRESHOLD_SQ: i64 = 1600;

/// The modifier whose rapid double press triggers the popup. Left and right
/// physical variants count as one identity.
#[derive(Clone, Copy, PartialEq, Eq, Debug)]
pub enum TriggerKey {
    Ctrl,
    Shift,
    Alt,
}

/// Which gesture triggers the popup.
#[derive(Clone, Copy, PartialEq, Eq, Debug)]
pub enum TriggerMode {
    DoublePress,
    SelectMove,
}

/// The runtime-replaceable detector configuration; replaced wholesale, never
/// partially mutated.
#[derive(Clone, Copy, PartialEq, Eq, Debug)]
pub struct HotkeyConfig {
    pub trigger_key: TriggerKey,
    pub trigger_mode: TriggerMode,
    pub interval_ms: u64,
}

/// The startup configuration: double press of Ctrl within 400 ms.
pub open spec fn default_hotkey_config() -> HotkeyConfig {
    HotkeyConfig { trigger_key: TriggerKey::Ctrl, trigger_mode: TriggerMode::DoublePress, interval_ms: 400 }
}

impl Default for HotkeyConfig {
    fn default() -> (c: Self)
        ensures
            c == default_hotkey_config(),
    {
        HotkeyConfig {
            trigger_key: TriggerKey::Ctrl,
            trigger_mode: TriggerMode::DoublePress,
            interval_ms: 400,
        }
    }
}

/// The physical keys the detector distinguishes; everything else is `Other`.
#[derive(Clone, Copy, PartialEq, Eq, Debug)]
pub enum KeyId {
    ControlLeft,
    ControlRight,
    ShiftLeft,
    ShiftRight,
    Alt,
    AltGr,
    Escape,
    Other,
}

/// Whether a pressed physical key is a variant of the configured trigger.
pub open spec fn key_matches(key: KeyId, trigger: TriggerKey) -> bool {
    match trigger {
        TriggerKey::Ctrl => key is ControlLeft || key is ControlRight,
        TriggerKey::Shift => key is ShiftLeft || key is ShiftRight,
        TriggerKey::Alt => key is Alt || key is AltGr,
    }
}

/// A raw input event, paired by the caller with the time it arrived.
#[derive(Clone, Copy, PartialEq, Eq, Debug)]
pub enum InputEvent {
    PointerMove { x: i32, y: i32 },
    PrimaryPress,
    PrimaryRelease,
    KeyPress { key: KeyId },
}

/// What the detector emits outward: at most one signal per event.
#[derive(Clone, Copy, PartialEq, Eq, Debug)]
pub enum GestureSignal {
    ShowPopup { x: i32, y: i32 },
    HidePopup,
}

/// A position in device pixels.
#[derive(Clone, Copy, PartialEq, Eq, Debug)]
pub struct PointerPos {
    pub x: i32,
    pub y: i32,
}

/// A time-boxed record that a drag-release likely selected text, awaiting a
/// confirming movement.
#[derive(Clone, Copy, PartialEq, Eq, Debug)]
pub struct PendingSelection {
    pub x: i32,
    pub y: i32,
    pub at_ms: u64,
}

/// The detector's whole mutable state.
#[derive(Clone, Copy, PartialEq, Eq, Debug)]
pub struct DetectorState {
    pub mouse_x: i32,
    pub mouse_y: i32,
    pub drag_start: Option<PointerPos>,
    pub pending_selection: Option<PendingSelection>,
    pub last_trigger_press: u64,
    pub press_count: u32,
}

/// The state at startup.
pub open spec fn initial_state() -> DetectorState {
    DetectorState {
        mouse_x: 0,
        mouse_y: 0,
        drag_start: None,
        pending_selection: None,
        last_trigger_press: 0,
        press_count: 0,
    }
}

/// Squared Euclidean distance.
pub open spec fn dist2(x1: int, y1: int, x2: int, y2: int) -> int {
    (x1 - x2) * (x1 - x2) + (y1 - y2) * (y1 - y2)
}

/// An armed pending selection is fresh while less than the validity window
/// has passed since it was armed.
pub open spec fn pending_fresh(p: PendingSelection, now: u64) -> bool {
    p.at_ms <= now && now - p.at_ms < SELECTION_WINDOW_MS
}

/// Pointer move: track the position. A fresh pending selection in SelectMove
/// mode triggers once the move leaves the threshold circle: emit show-popup
/// at the move's coordinates and disarm. A stale pending selection is
/// silently cleared; otherwise it stays armed.
pub open spec fn step_pointer_move(
    s: DetectorState,
    c: HotkeyConfig,
    x: i32,
    y: i32,
    now: u64,
) -> (DetectorState, Option<GestureSignal>) {
    let moved = DetectorState { mouse_x: x, mouse_y: y, ..s };
    match s.pending_selection {
        Some(p) => {
            if pending_fresh(p, now) {
                if c.trigger_mode is SelectMove && dist2(
                    x as int,
                    y as int,
                    p.x as int,
                    p.y as int,
                ) > MOVE_THRESHOLD_SQ as int {
                    (
                        DetectorState { pending_selection: None, ..moved },
                        Some(GestureSignal::ShowPopup { x, y }),
                    )
                } else {
                    (moved, None)
                }
            } else {
                (DetectorState { pending_selection: None, ..moved }, None)
            }
        },
        None => (moved, None),
    }
}

/// Primary button press: start a drag at the current position, disarm any
/// pending selection, and dismiss any shown popup.
pub open spec fn step_primary_press(s: DetectorState) -> (DetectorState, Option<GestureSignal>) {
    (
        DetectorState {
            drag_start: Some(PointerPos { x: s.mouse_x, y: s.mouse_y }),
            pending_selection: None,
            ..s
        },
        Some(GestureSignal::HidePopup),
    )
}

/// Primary button release: a drag longer than the threshold arms a pending
/// selection at the release position; the drag always ends.
pub open spec fn step_primary_release(s: DetectorState, now: u64) -> (
    DetectorState,
    Option<GestureSignal>,
) {
    match s.drag_start {
        Some(d) => {
            if dist2(s.mouse_x as int, s.mouse_y as int, d.x as int, d.y as int)
                > DRAG_THRESHOLD_SQ as int {
                (
                    DetectorState {
                        drag_start: None,
                        pending_selection: Some(
                            PendingSelection { x: s.mouse_x, y: s.mouse_y, at_ms: now },
                        ),
                        ..s
                    },
                    None,
                )
            } else {
                (DetectorState { drag_start: None, ..s }, None)
            }
        },
        None => (DetectorState { drag_start: None, ..s }, None),
    }
}

/// Key press: Escape always dismisses the popup, whatever the configuration.
/// In DoublePress mode a press of the trigger key within the configured
/// interval of the previous one raises the count, otherwise the count
/// restarts at one; the second press of a pair emits show-popup at the
/// current pointer position and resets the count to zero, so a following
/// press starts a fresh count.
pub open spec fn step_key_press(s: DetectorState, c: HotkeyConfig, key: KeyId, now: u64) -> (
    DetectorState,
    Option<GestureSignal>,
) {
    if key is Escape {
        (s, Some(GestureSignal::HidePopup))
    } else if key_matches(key, c.trigger_key) && c.trigger_mode is DoublePress {
        let within = s.last_trigger_press <= now && now - s.last_trigger_press
            < c.interval_ms;
        let count = if within {
            s.press_count as int + 1
        } else {
            1
        };
        if count == 2 {
            (
                DetectorState { last_trigger_press: now, press_count: 0, ..s },
                Some(GestureSignal::ShowPopup { x: s.mouse_x, y: s.mouse_y }),
            )
        } else {
            (DetectorState { last_trigger_press: now, press_count: count as u32, ..s }, None)
        }
    } else {
        (s, None)
    }
}

/// One step of the detector: the whole per-event behaviour.
pub open spec fn step(s: DetectorState, c: HotkeyConfig, e: InputEvent, now: u64) -> (
    DetectorState,
    Option<GestureSignal>,
) {
    match e {
        InputEvent::PointerMove { x, y } => step_pointer_move(s, c, x, y, now),
        InputEvent::PrimaryPress => step_primary_press(s),
        InputEvent::PrimaryRelease => step_primary_release(s, now),
        InputEvent::KeyPress { key } => step_key_press(s, c, key, now),
    }
}

/// The gesture detector: its configuration and its state. The caller feeds
/// it one timed event at a time and delivers whatever signal comes back.
pub struct Scanner {
    pub hotkey_config: HotkeyConfig,
    pub state: DetectorState,
}

impl Scanner {
    /// The press count never exceeds one between events: a second press
    /// completes the pair and resets it.
    pub open spec fn wf(self) -> bool {
        self.state.press_count <= 1
    }

    pub fn new() -> (s: Scanner)
        ensures
            s.hotkey_config == default_hotkey_config(),
            s.state == initial_state(),
            s.wf(),
    {
        Scanner { hotkey_config: HotkeyConfig::default(), state: initial_state_value() }
    }

    /// Atomically replace the configuration; it takes effect on the next
    /// event, with no replay of past events.
    pub fn update_hotkey_config(&mut self, config: HotkeyConfig)
        ensures
            final (self).hotkey_config == config,
            final (self).state == old(self).state,
    {
        self.hotkey_config = config;
    }

    /// Consume one timed input event: advance the state by `step` and return
    /// the signal to emit, if any. The caller must emit it only after this
    /// call returns, never re-entrantly.
    pub fn handle_event(&mut self, event: InputEvent, now_ms: u64) -> (sig: Option<GestureSignal>)
        requires
            old(self).wf(),
        ensures
            final (self).wf(),
            final (self).hotkey_config == old(self).hotkey_config,
            (final (self).state, sig) == step(
                old(self).state,
                old(self).hotkey_config,
                event,
                now_ms,
            ),
    {
        match event {
            InputEvent::PointerMove { x, y } => {
                self.state.mouse_x = x;
                self.state.mouse_y = y;
                match self.state.pending_selection {
                    Some(p) => {
                        if p.at_ms <= now_ms && now_ms - p.at_ms < SELECTION_WINDOW_MS {
                            let is_select_move = match self.hotkey_config.trigger_mode {
                                TriggerMode::SelectMove => true,
                                TriggerMode::DoublePress => false,
                            };
                            if is_select_move && dist2_exceeds(x, y, p.x, p.y, MOVE_THRESHOLD_SQ) {
                                self.state.pending_selection = None;
                                Some(GestureSignal::ShowPopup { x, y })
                            } else {
                                None
                            }
                        } else {
                            self.state.pending_selection = None;
                            None
                        }
                    },
                    None => None,
                }
            },
            InputEvent::PrimaryPress => {
                self.state.drag_start = Some(
                    PointerPos { x: self.state.mouse_x, y: self.state.mouse_y },
                );
                self.state.pending_selection = None;
                Some(GestureSignal::HidePopup)
            },
            InputEvent::PrimaryRelease => {
                match self.state.drag_start {
                    Some(d) => {
                        if dist2_exceeds(
                            self.state.mouse_x,
                            self.state.mouse_y,
                            d.x,
                            d.y,
                            DRAG_THRESHOLD_SQ,
                        ) {
                            self.state.pending_selection = Some(
                                PendingSelection {
                                    x: self.state.mouse_x,
                                    y: self.state.mouse_y,
                                    at_ms: now_ms,
                                },
                            );
                        }
                    },
                    None => {},
                }
                self.state.drag_start = None;
                None
            },
            InputEvent::KeyPress { key } => {
                let is_escape = match key {
                    KeyId::Escape => true,
                    _ => false,
                };
                if is_escape {
                    return Some(GestureSignal::HidePopup);
                }
                let matches_trigger = trigger_key_matches(key, self.hotkey_config.trigger_key);
                let is_double_press = match self.hotkey_config.trigger_mode {
                    TriggerMode::DoublePress => true,
                    TriggerMode::SelectMove => false,
                };
                if matches_trigger && is_double_press {
                    let within = self.state.last_trigger_press <= now_ms && now_ms
                        - self.state.last_trigger_press < self.hotkey_config.interval_ms;
                    let count: u32 = if within {
                        self.state.press_count + 1
                    } else {
                        1
                    };
                    self.state.last_trigger_press = now_ms;
                    if count == 2 {
                        self.state.press_count = 0;
                        Some(
                            GestureSignal::ShowPopup {
                                x: self.state.mouse_x,
                                y: self.state.mouse_y,
                            },
                        )
                    } else {
                        self.state.press_count = count;
                        None
                    }
                } else {
                    None
                }
            },
        }
    }
}

/// The startup state as a value.
fn initial_state_value() -> (s: DetectorState)
    ensures
        s == initial_state(),
{
    DetectorState {
        mouse_x: 0,
        mouse_y: 0,
        drag_start: None,
        pending_selection: None,
        last_trigger_press: 0,
        press_count: 0,
    }
}

/// Whether the pressed key is a physical variant of the configured trigger.
pub fn trigger_key_matches(key: KeyId, trigger: TriggerKey) -> (r: bool)
    ensures
        r == key_matches(key, trigger),
{
    match trigger {
        TriggerKey::Ctrl => match key {
            KeyId::ControlLeft => true,
            KeyId::ControlRight => true,
            _ => false,
        },
        TriggerKey::Shift => match key {
            KeyId::ShiftLeft => true,
            KeyId::ShiftRight => true,
            _ => false,
        },
        TriggerKey::Alt => match key {
            KeyId::Alt => true,
            KeyId::AltGr => true,
            _ => false,
        },
    }
}

/// Whether the squared distance between two positions exceeds `threshold`.
fn dist2_exceeds(x1: i32, y1: i32, x2: i32, y2: i32, threshold: i64) -> (r: bool)
    ensures
        r == (dist2(x1 as int, y1 as int, x2 as int, y2 as int) > threshold as int),
{
    let dx: i64 = x1 as i64 - x2 as i64;
    let dy: i64 = y1 as i64 - y2 as i64;
    proof {
        let bound: int = 0x1_0000_0000;
        assert((dx as int) > -bound && (dx as int) < bound);
        assert((dy as int) > -bound && (dy as int) < bound);
        assert((dx as int) * (dx as int) < bound * bound && (dx as int) * (dx as int) >= 0)
            by (nonlinear_arith)
            requires
                (dx as int) > -bound && (dx as int) < bound,
                bound == 0x1_0000_0000,
        ;
        assert((dy as int) * (dy as int) < bound * bound && (dy as int) * (dy as int) >= 0)
            by (nonlinear_arith)
            requires
                (dy as int) > -bound && (dy as int) < bound,
                bound == 0x1_0000_0000,
        ;
        assert(bound * bound == 0x1_0000_0000_0000_0000);
    }
    let d2: i128 = (dx as i128) * (dx as i128) + (dy as i128) * (dy as i128);
    d2 > threshold as i128
}

/// Law: a primary-button drag longer than the threshold (more than 40 pixels,
/// that is squared distance above 1600) arms a pending selection at the
/// release position and time; a shorter drag leaves the pending selection as
/// it was. Either way the drag ends and nothing is emitted.
pub proof fn lemma_release_arms_only_long_drags(
    s: DetectorState,
    c: HotkeyConfig,
    d: PointerPos,
    now: u64,
)
    requires
        s.drag_start == Some(d),
    ensures
        dist2(s.mouse_x as int, s.mouse_y as int, d.x as int, d.y as int) > DRAG_THRESHOLD_SQ as int
            ==> step(s, c, InputEvent::PrimaryRelease, now).0.pending_selection == Some(
            (PendingSelection { x: s.mouse_x, y: s.mouse_y, at_ms: now }),
        ),
        dist2(s.mouse_x as int, s.mouse_y as int, d.x as int, d.y as int)
            <= DRAG_THRESHOLD_SQ as int ==> step(
            s,
            c,
            InputEvent::PrimaryRelease,
            now,
        ).0.pending_selection == s.pending_selection,
        step(s, c, InputEvent::PrimaryRelease, now).0.drag_start is None,
        step(s, c, InputEvent::PrimaryRelease, now).1 is None,
{
}

/// Law: with mode SelectMove and a fresh armed pending selection, a move of
/// more than the threshold (30 pixels, squared distance above 900) emits
/// exactly one show-popup, at the move's coordinates, and disarms — so the
/// same movement again emits nothing. The same move once the window has
/// passed emits nothing and merely disarms.
pub proof fn lemma_select_move_triggers_once(
    s: DetectorState,
    c: HotkeyConfig,
    p: PendingSelection,
    x: i32,
    y: i32,
    now: u64,
    x2: i32,
    y2: i32,
    later: u64,
)
    requires
        s.pending_selection == Some(p),
        c.trigger_mode is SelectMove,
        dist2(x as int, y as int, p.x as int, p.y as int) > MOVE_THRESHOLD_SQ as int,
    ensures
        pending_fresh(p, now) ==> step(s, c, InputEvent::PointerMove { x, y }, now).1 == Some(
            (GestureSignal::ShowPopup { x, y }),
        ),
        pending_fresh(p, now) ==> step(
            s,
            c,
            InputEvent::PointerMove { x, y },
            now,
        ).0.pending_selection is None,
        pending_fresh(p, now) ==> step(
            step(s, c, InputEvent::PointerMove { x, y }, now).0,
            c,
            InputEvent::PointerMove { x: x2, y: y2 },
            later,
        ).1 is None,
        !pending_fresh(p, now) ==> step(s, c, InputEvent::PointerMove { x, y }, now).1 is None
            && step(s, c, InputEvent::PointerMove { x, y }, now).0.pending_selection is None,
{
}

/// Law: from a resting count, two presses of the configured trigger key
/// within the configured interval produce exactly one show-popup emission —
/// none at the first press, one at the second, at the pointer position — and
/// a third press after the completed pair starts a fresh count and emits
/// nothing.
pub proof fn lemma_double_press_fires_once(
    s: DetectorState,
    c: HotkeyConfig,
    k: KeyId,
    t1: u64,
    t2: u64,
    t3: u64,
)
    requires
        s.press_count == 0,
        c.trigger_mode is DoublePress,
        key_matches(k, c.trigger_key),
        t1 <= t2,
        t2 - t1 < c.interval_ms,
        t2 <= t3,
    ensures
        ({
            let (s1, g1) = step(s, c, InputEvent::KeyPress { key: k }, t1);
            let (s2, g2) = step(s1, c, InputEvent::KeyPress { key: k }, t2);
            let (s3, g3) = step(s2, c, InputEvent::KeyPress { key: k }, t3);
            g1 is None && g2 == Some((GestureSignal::ShowPopup { x: s.mouse_x, y: s.mouse_y }))
                && g3 is None && s2.press_count == 0 && s3.press_count == 1
        }),
{
    assert(!(k is Escape));
}

} // verus!
