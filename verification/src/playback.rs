//! Decisions of the command-line preview: the playback keys, the elapsed time
//! shown while playing, and what a transition preview plays.
use vstd::prelude::*;

use crate::time::Duration;
use crate::track::Track;

verus! {

/// What a key pressed during playback asks for.
#[derive(Debug, Clone, Copy, PartialEq, Eq, Structural)]
pub enum KeyAction {
    /// Pause, or resume when paused (Space)
    TogglePause,
    /// Stop playing (Q)
    Stop,
    /// Raise the volume (+ or =)
    VolumeUp,
    /// Lower the volume (- or _)
    VolumeDown,
    /// Nothing: no key, or a key with no meaning
    Nothing,
}

/// The action for a key byte, if one was pressed.
pub open spec fn action_of_key(key: Option<u8>) -> KeyAction {
    match key {
        Some(k) => if k == 32 {
            KeyAction::TogglePause
        } else if k == 113 || k == 81 {
            KeyAction::Stop
        } else if k == 43 || k == 61 {
            KeyAction::VolumeUp
        } else if k == 45 || k == 95 {
            KeyAction::VolumeDown
        } else {
            KeyAction::Nothing
        },
        None => KeyAction::Nothing,
    }
}

/// The clock of a playback, in milliseconds since it started: how long it was
/// paused in all, when the current pause began, and what is shown.
#[derive(Debug, Clone, Copy, PartialEq, Eq, Structural)]
pub struct PlaybackClock {
    /// Milliseconds spent in pauses that ended
    pub paused_ms: u64,
    /// When the current pause began, while paused
    pub pause_started_ms: Option<u64>,
    /// Milliseconds played, as shown in the status text
    pub elapsed_ms: u64,
    /// Whole seconds played, as shown on the progress bar (at most the duration)
    pub bar_secs: u64,
}

impl PlaybackClock {
    /// The clock of a playback that just started.
    pub fn new() -> (c: PlaybackClock)
        ensures
            c.paused_ms == 0,
            c.pause_started_ms is None,
            c.elapsed_ms == 0,
            c.bar_secs == 0,
    {
        PlaybackClock { paused_ms: 0, pause_started_ms: None, elapsed_ms: 0, bar_secs: 0 }
    }
}

/// `a - b`, or 0 where `b` is larger.
pub open spec fn sub_or_zero(a: u64, b: u64) -> u64 {
    if a >= b {
        (a - b) as u64
    } else {
        0
    }
}

/// One pass of the playback loop at `now_ms` (milliseconds since playback
/// started), with the player `paused` or not and the track `duration_ms` long:
/// a pause that begins is remembered, a pause that ended is added to the paused
/// time, the time played is the time since the start less the time paused, and
/// the progress bar shows its whole seconds, at most the duration's. The key
/// pressed, if any, gives the action.
pub fn playback_step(
    clock: PlaybackClock,
    key: Option<u8>,
    now_ms: u64,
    paused: bool,
    duration_ms: u64,
) -> (r: (PlaybackClock, KeyAction))
    ensures
        r.1 == action_of_key(key),
        paused ==> r.0.paused_ms == clock.paused_ms && r.0.pause_started_ms == match clock.pause_started_ms {
            Some(p) => Some(p),
            None => Some(now_ms),
        },
        !paused ==> r.0.pause_started_ms is None && r.0.paused_ms == match clock.pause_started_ms {
            Some(p) => if clock.paused_ms + sub_or_zero(now_ms, p) <= u64::MAX {
                (clock.paused_ms + sub_or_zero(now_ms, p)) as u64
            } else {
                u64::MAX
            },
            None => clock.paused_ms,
        },
        r.0.elapsed_ms == sub_or_zero(now_ms, r.0.paused_ms),
        r.0.bar_secs == if r.0.elapsed_ms / 1000 <= duration_ms / 1000 {
            r.0.elapsed_ms / 1000
        } else {
            duration_ms / 1000
        },
{
    let mut paused_ms = clock.paused_ms;
    let mut pause_started_ms = clock.pause_started_ms;
    if paused {
        if pause_started_ms.is_none() {
            pause_started_ms = Some(now_ms);
        }
    } else {
        if let Some(p) = pause_started_ms {
            paused_ms = paused_ms.saturating_add(now_ms.saturating_sub(p));
        }
        pause_started_ms = None;
    }
    let elapsed_ms = now_ms.saturating_sub(paused_ms);
    let elapsed_secs = elapsed_ms / 1000;
    let duration_secs = duration_ms / 1000;
    let bar_secs = if elapsed_secs <= duration_secs {
        elapsed_secs
    } else {
        duration_secs
    };
    let action = match key {
        Some(k) => if k == 32 {
            KeyAction::TogglePause
        } else if k == 113 || k == 81 {
            KeyAction::Stop
        } else if k == 43 || k == 61 {
            KeyAction::VolumeUp
        } else if k == 45 || k == 95 {
            KeyAction::VolumeDown
        } else {
            KeyAction::Nothing
        },
        None => KeyAction::Nothing,
    };
    (PlaybackClock { paused_ms, pause_started_ms, elapsed_ms, bar_secs }, action)
}

/// The longest stretch a transition preview plays of each track: five seconds.
pub const TRANSITION_PREVIEW_SECS: u64 = 5;

/// The longest stretch of gap a transition preview waits: three seconds.
pub const TRANSITION_GAP_CAP_SECS: u64 = 3;

/// What a transition preview from one track into the next plays.
#[derive(Debug, Clone, Copy, PartialEq, Eq, Structural)]
pub struct TransitionPlan {
    /// Where to start the first track: five seconds before its end, or its start
    pub skip_to: Duration,
    /// Whether the second track has a gap to announce
    pub has_gap: bool,
    /// How long to wait for the gap: the second track's pregap, at most three seconds
    pub gap_wait: Duration,
}

/// What a transition preview from `first` into `second` plays.
pub fn transition_plan(first: &Track, second: &Track) -> (p: TransitionPlan)
    ensures
        p.skip_to@ == if first.duration@ >= 5_000_000_000 {
            first.duration@ - 5_000_000_000
        } else {
            0
        },
        p.has_gap == (second.pregap@ / 1_000_000 > 0),
        p.gap_wait@ == if second.pregap@ <= 3_000_000_000 {
            second.pregap@
        } else {
            3_000_000_000
        },
{
    let preview = Duration::from_secs(TRANSITION_PREVIEW_SECS);
    let cap = Duration::from_secs(TRANSITION_GAP_CAP_SECS);
    let gap_wait = if cap.lt(&second.pregap) {
        cap
    } else {
        second.pregap
    };
    TransitionPlan {
        skip_to: first.duration.saturating_sub(preview),
        has_gap: second.pregap.as_millis() > 0,
        gap_wait,
    }
}

/// How long a transition preview plays of the second track, which the player
/// reports to last `reported`: at most five seconds.
pub fn transition_play_time(reported: Duration) -> (d: Duration)
    ensures
        d@ == if reported@ <= 5_000_000_000 {
            reported@
        } else {
            5_000_000_000
        },
{
    let preview = Duration::from_secs(TRANSITION_PREVIEW_SECS);
    if preview.lt(&reported) {
        preview
    } else {
        reported
    }
}

} // verus!
