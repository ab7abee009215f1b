//! Decisions of the preview player's audio loop. The loop itself (channels, the
//! audio sink, files and the clock) runs outside; it feeds each command or I/O
//! outcome to `Engine::step` together with what the sink reports and the current
//! time, and carries out the actions it gets back.
use vstd::prelude::*;

use crate::text::push_str;

verus! {

/// Errors of the command-line player.
#[derive(Debug)]
pub enum PlayerError {
    /// The audio output could not be opened: the reason.
    InitError(String),
    /// A file could not be played: the reason.
    PlayError(String),
}

/// Events sent from the audio engine.
#[derive(Debug)]
pub enum PlayerEvent {
    /// Track loaded successfully with duration in milliseconds
    Loaded { duration_ms: u64 },
    /// Playback started
    Playing,
    /// Playback paused
    Paused,
    /// Playback stopped by user
    Stopped,
    /// Track finished playing naturally (reached end)
    TrackFinished,
    /// Position update (milliseconds from start)
    Position(u64),
    /// Error occurred
    Error(String),
}

/// Commands the engine takes, with a seek already turned into milliseconds.
#[derive(Debug)]
pub enum EngineCommand {
    /// Load a track from the given path
    Load(String),
    /// Load a track and immediately start playing
    LoadAndPlay(String),
    /// Start or resume playback
    Play,
    /// Pause playback
    Pause,
    /// Stop playback and reset position
    Stop,
    /// Seek to the given position in milliseconds
    Seek(u64),
    /// Shutdown the audio thread
    Shutdown,
}

/// What drives the engine: a command, the outcome of an action, or the passing of time.
#[derive(Debug)]
pub enum EngineInput {
    /// A command from the user interface
    Command(EngineCommand),
    /// A sink was asked for; this is what it reports now
    SinkReady,
    /// The file asked for was opened and decoded; its duration in milliseconds
    Opened(u64),
    /// The file asked for could not be opened: reason
    OpenFailed(String),
    /// The file asked for could not be decoded: reason
    DecodeFailed(String),
    /// No command arrived in time, or a command was handled: update the position
    Tick,
}

/// What the audio sink reports.
#[derive(Debug, Clone, Copy, PartialEq, Eq, Structural)]
pub enum SinkState {
    /// There is no sink
    Missing,
    /// The sink is paused
    Paused,
    /// The sink has nothing queued
    Empty,
    /// The sink is playing something
    Busy,
}

/// What the loop must do, in order.
#[derive(Debug)]
pub enum EngineAction {
    /// Drop the sink and create a fresh one at the current volume
    ResetSink,
    /// Create a sink at the current volume
    CreateSink,
    /// Drop the sink
    DropSink,
    /// Open and decode the file, then report `Opened`, `OpenFailed` or `DecodeFailed`
    OpenFile(String),
    /// Queue the opened source on the sink, skipping the given milliseconds if
    /// any, set the volume and play
    AppendAndPlay(Option<u64>),
    /// Drop the opened source unused
    DiscardSource,
    /// Resume the paused sink
    ResumeSink,
    /// Pause the sink
    PauseSink,
    /// Send the event to the user interface
    Emit(PlayerEvent),
    /// Leave the loop
    Exit,
}

/// The operation waiting for an I/O outcome.
#[derive(Debug)]
pub enum Pending {
    /// Nothing is waiting
    Idle,
    /// Loading the file at the path
    Load(String),
    /// Loading the file at the path, then playing it
    LoadAndPlay(String),
    /// Waiting for a sink before playing
    PlayAfterSink,
    /// Opening the current file to play it from the paused offset
    PlayFresh,
    /// Opening the current file to play it from the seek target
    SeekRestart(u64),
    /// The loop is to end
    Done,
}

/// The state of the audio loop.
#[derive(Debug)]
pub struct Engine {
    /// The file loaded last
    pub current_path: Option<String>,
    /// When playback last started (milliseconds on the loop's clock), while playing
    pub started_at_ms: Option<u64>,
    /// Milliseconds played before the last start
    pub pause_offset_ms: u64,
    /// Current position in milliseconds
    pub position_ms: u64,
    /// Total duration in milliseconds
    pub duration_ms: u64,
    /// Is currently playing
    pub is_playing: bool,
    /// Is paused
    pub is_paused: bool,
    /// The operation waiting for an I/O outcome
    pub pending: Pending,
    /// The position sent in the last position report since the last seek, stop,
    /// load or finish; `None` where none was sent since
    pub last_reported_ms: Option<u64>,
}

/// The message for a file that could not be opened.
pub open spec fn open_error_text(e: Seq<char>) -> Seq<char> {
    "Failed to open file: "@ + e
}

/// The message for a file that could not be decoded.
pub open spec fn decode_error_text(e: Seq<char>) -> Seq<char> {
    "Failed to decode: "@ + e
}

/// `a + b`, or `u64::MAX` where that overflows.
pub open spec fn sat_add(a: u64, b: u64) -> u64 {
    if a + b > u64::MAX {
        u64::MAX
    } else {
        (a + b) as u64
    }
}

/// `a - b`, or 0 where `b` is larger.
pub open spec fn sat_sub(a: u64, b: u64) -> u64 {
    if a >= b {
        (a - b) as u64
    } else {
        0
    }
}

/// Whether the position `cur` is to be reported after `last` was: always when
/// nothing was reported since the last reset, otherwise once it moved by at
/// least 100 ms.
pub open spec fn report_due(last: Option<u64>, cur: u64) -> bool {
    match last {
        None => true,
        Some(l) => if cur >= l {
            cur - l >= 100
        } else {
            l - cur >= 100
        },
    }
}

/// Whether `input` resets the position reports of an engine waiting on `pending`:
/// a stop, a seek, and a file opened for loading.
pub open spec fn resets_reports(input: EngineInput, pending: Pending) -> bool {
    ||| input matches EngineInput::Command(EngineCommand::Stop)
    ||| input matches EngineInput::Command(EngineCommand::Seek(_))
    ||| (input is Opened && (pending is Load || pending is LoadAndPlay))
}

/// What a tick at `now_ms` does to engine `old`, giving `new` and `actions`:
/// playback that reached the duration rewinds and reports that the track
/// finished; playback before the end updates the position and reports it where
/// `report_due`; an engine that is not running is left as it is.
pub open spec fn ticked(old: Engine, now_ms: u64, new: Engine, actions: Seq<EngineAction>) -> bool {
    match (old.running(), old.started_at_ms) {
        (true, Some(st)) => {
            let cur = sat_add(old.pause_offset_ms, sat_sub(now_ms, st));
            &&& new.pending == old.pending
            &&& new.current_path == old.current_path
            &&& new.duration_ms == old.duration_ms
            &&& if cur >= old.duration_ms {
                &&& new.position_ms == 0
                &&& new.pause_offset_ms == 0
                &&& !new.is_playing
                &&& !new.is_paused
                &&& new.started_at_ms is None
                &&& new.last_reported_ms is None
                &&& actions =~= seq![
                    EngineAction::ResetSink,
                    EngineAction::Emit(PlayerEvent::TrackFinished),
                ]
            } else {
                &&& new.position_ms == cur
                &&& new.pause_offset_ms == old.pause_offset_ms
                &&& new.is_playing == old.is_playing
                &&& new.is_paused == old.is_paused
                &&& new.started_at_ms == old.started_at_ms
                &&& if report_due(old.last_reported_ms, cur) {
                    &&& new.last_reported_ms == Some(cur)
                    &&& actions =~= seq![EngineAction::Emit(PlayerEvent::Position(cur))]
                } else {
                    &&& new.last_reported_ms == old.last_reported_ms
                    &&& actions.len() == 0
                }
            }
        },
        _ => new == old && actions.len() == 0,
    }
}

/// What one pass of the engine loop guarantees of position reports: a pass
/// that hands the engine an input (`Some`) reports no position and keeps the
/// last report unless the input resets reports (see `Engine::step`); a pass
/// without one is a tick at `now_ms` (see `Engine::tick`).
pub open spec fn engine_pass(
    old: Engine,
    input: Option<EngineInput>,
    now_ms: u64,
    new: Engine,
    actions: Seq<EngineAction>,
) -> bool {
    match input {
        Some(i) => {
            &&& new.last_reported_ms == if resets_reports(i, old.pending) {
                None
            } else {
                old.last_reported_ms
            }
            &&& forall|k: int|
                0 <= k < actions.len() ==> !(#[trigger] actions[k] matches EngineAction::Emit(
                    PlayerEvent::Position(_),
                ))
        },
        None => ticked(old, now_ms, new, actions),
    }
}

/// Whether pass `k` of a run of the engine loop is an `engine_pass`.
pub open spec fn pass_at(
    engines: Seq<Engine>,
    inputs: Seq<Option<EngineInput>>,
    times: Seq<u64>,
    acts: Seq<Seq<EngineAction>>,
    k: int,
) -> bool {
    engine_pass(engines[k], inputs[k], times[k], engines[k + 1], acts[k])
}

/// Whether a pass neither resets the position reports nor reports: its input,
/// if any, is no stop, seek or load, and it reports no position and no end of
/// track.
pub open spec fn quiet_pass(input: Option<EngineInput>, pending: Pending, actions: Seq<EngineAction>) -> bool {
    &&& !(input matches Some(i) && resets_reports(i, pending))
    &&& forall|k: int|
        0 <= k < actions.len() ==> !(#[trigger] actions[k] matches EngineAction::Emit(
            PlayerEvent::Position(_),
        )) && !(actions[k] matches EngineAction::Emit(PlayerEvent::TrackFinished))
}

/// The last report stays the one made at pass `i` through quiet passes.
proof fn lemma_report_kept(
    engines: Seq<Engine>,
    inputs: Seq<Option<EngineInput>>,
    times: Seq<u64>,
    acts: Seq<Seq<EngineAction>>,
    i: int,
    k: int,
    p: u64,
)
    requires
        engines.len() == inputs.len() + 1,
        forall|m: int| 0 <= m < inputs.len() ==> #[trigger] pass_at(engines, inputs, times, acts, m),
        0 <= i < k <= inputs.len(),
        engines[i + 1].last_reported_ms == Some(p),
        forall|m: int| i < m < k ==> #[trigger] quiet_pass(inputs[m], engines[m].pending, acts[m]),
    ensures
        engines[k].last_reported_ms == Some(p),
    decreases k - i,
{
    if k > i + 1 {
        lemma_report_kept(engines, inputs, times, acts, i, k - 1, p);
        let m = k - 1;
        assert(pass_at(engines, inputs, times, acts, m));
        assert(quiet_pass(inputs[m], engines[m].pending, acts[m]));
        if inputs[m] is None {
            let old = engines[m];
            if old.running() && old.started_at_ms is Some {
                let cur = sat_add(old.pause_offset_ms, sat_sub(times[m], old.started_at_ms->Some_0));
                if cur >= old.duration_ms {
                    assert(acts[m][1] matches EngineAction::Emit(PlayerEvent::TrackFinished));
                } else if report_due(old.last_reported_ms, cur) {
                    assert(acts[m][0] matches EngineAction::Emit(PlayerEvent::Position(_)));
                }
            }
        }
    }
}

/// Two position reports with no stop, seek, load or end of track between them
/// lie at least 100 ms apart: over any run of the engine loop, when pass `i`
/// reports `p1` and a later pass `j` reports `p2`, and the passes between are
/// quiet, `p2` moved by at least 100 ms from `p1`.
pub proof fn law_position_reports_apart(
    engines: Seq<Engine>,
    inputs: Seq<Option<EngineInput>>,
    times: Seq<u64>,
    acts: Seq<Seq<EngineAction>>,
    i: int,
    a: int,
    j: int,
    b: int,
)
    requires
        engines.len() == inputs.len() + 1,
        times.len() == inputs.len(),
        acts.len() == inputs.len(),
        forall|m: int| 0 <= m < inputs.len() ==> #[trigger] pass_at(engines, inputs, times, acts, m),
        0 <= i < j < inputs.len(),
        0 <= a < acts[i].len(),
        acts[i][a] matches EngineAction::Emit(PlayerEvent::Position(_)),
        0 <= b < acts[j].len(),
        acts[j][b] matches EngineAction::Emit(PlayerEvent::Position(_)),
        forall|m: int| i < m < j ==> #[trigger] quiet_pass(inputs[m], engines[m].pending, acts[m]),
    ensures
        ({
            let p1 = acts[i][a]->Emit_0->Position_0;
            let p2 = acts[j][b]->Emit_0->Position_0;
            (if p2 >= p1 {
                p2 - p1
            } else {
                p1 - p2
            }) >= 100
        }),
{
    let p1 = acts[i][a]->Emit_0->Position_0;
    assert(pass_at(engines, inputs, times, acts, i));
    assert(pass_at(engines, inputs, times, acts, j));
    assert(engines[i + 1].last_reported_ms == Some(p1));
    lemma_report_kept(engines, inputs, times, acts, i, j, p1);
}

/// Whether `a` is the event action `Error` with message `m`.
pub open spec fn is_error_action(a: EngineAction, m: Seq<char>) -> bool {
    a matches EngineAction::Emit(PlayerEvent::Error(x)) && x@ == m
}

impl Engine {
    /// The engine's invariant: a paused engine is playing, and a start time is
    /// kept only while playing and not paused.
    pub open spec fn wf(&self) -> bool {
        &&& self.is_paused ==> self.is_playing
        &&& self.started_at_ms is Some ==> self.is_playing && !self.is_paused
    }

    /// Whether the engine counts as playing for position updates.
    pub open spec fn running(&self) -> bool {
        self.is_playing && !self.is_paused
    }

    /// Every field but the pending operation is as in `old`.
    pub open spec fn same_playback(&self, old: Engine) -> bool {
        &&& self.current_path == old.current_path
        &&& self.started_at_ms == old.started_at_ms
        &&& self.pause_offset_ms == old.pause_offset_ms
        &&& self.position_ms == old.position_ms
        &&& self.duration_ms == old.duration_ms
        &&& self.is_playing == old.is_playing
        &&& self.is_paused == old.is_paused
    }

    /// The outcome of playing with a sink in state `sink` at `now_ms`, from `old`
    /// (which has a file loaded): a paused sink resumes, an empty one has the
    /// current file opened, any other is left as it is.
    pub open spec fn played_with_sink(&self, old: Engine, sink: SinkState, now_ms: u64, actions: Seq<EngineAction>) -> bool {
        &&& self.current_path == old.current_path
        &&& self.pause_offset_ms == old.pause_offset_ms
        &&& self.position_ms == old.position_ms
        &&& self.duration_ms == old.duration_ms
        &&& if sink == SinkState::Paused {
            &&& self.started_at_ms == Some(now_ms)
            &&& self.running()
            &&& self.pending == Pending::Idle
            &&& actions =~= seq![EngineAction::ResumeSink, EngineAction::Emit(PlayerEvent::Playing)]
        } else if sink == SinkState::Empty {
            &&& self.pending == Pending::PlayFresh
            &&& actions =~= seq![EngineAction::OpenFile(old.current_path->Some_0)]
            &&& self.started_at_ms == old.started_at_ms
            &&& self.is_playing == old.is_playing
            &&& self.is_paused == old.is_paused
        } else {
            &&& self.pending == Pending::Idle
            &&& actions.len() == 0
            &&& self.started_at_ms == old.started_at_ms
            &&& self.is_playing == old.is_playing
            &&& self.is_paused == old.is_paused
        }
    }

    /// A fresh engine: nothing loaded, stopped.
    pub fn new() -> (e: Engine)
        ensures
            e.wf(),
            e.current_path is None,
            e.started_at_ms is None,
            e.pause_offset_ms == 0,
            e.position_ms == 0,
            e.duration_ms == 0,
            !e.is_playing,
            !e.is_paused,
            e.pending == Pending::Idle,
            e.last_reported_ms is None,
    {
        Engine {
            current_path: None,
            started_at_ms: None,
            pause_offset_ms: 0,
            position_ms: 0,
            duration_ms: 0,
            is_playing: false,
            is_paused: false,
            pending: Pending::Idle,
            last_reported_ms: None,
        }
    }

    /// How long to wait for a command: 50 ms while playing, a second otherwise.
    pub fn poll_interval_ms(&self) -> (ms: u64)
        ensures
            ms == if self.running() {
                50u64
            } else {
                1000u64
            },
    {
        if self.is_playing && !self.is_paused {
            50
        } else {
            1000
        }
    }

    /// Whether the loop is to end.
    pub fn is_done(&self) -> (b: bool)
        ensures
            b == (self.pending is Done),
    {
        matches!(self.pending, Pending::Done)
    }

    /// Start playing at `now_ms`.
    fn start_playing(&mut self, now_ms: u64)
        ensures
            final(self).started_at_ms == Some(now_ms),
            final(self).is_playing,
            !final(self).is_paused,
            final(self).current_path == old(self).current_path,
            final(self).pause_offset_ms == old(self).pause_offset_ms,
            final(self).position_ms == old(self).position_ms,
            final(self).duration_ms == old(self).duration_ms,
            final(self).pending == old(self).pending,
            final(self).last_reported_ms == old(self).last_reported_ms,
    {
        self.started_at_ms = Some(now_ms);
        self.is_playing = true;
        self.is_paused = false;
    }

    /// Go back to the start of the track, stopped.
    fn rewind(&mut self)
        ensures
            final(self).started_at_ms is None,
            final(self).pause_offset_ms == 0,
            final(self).position_ms == 0,
            !final(self).is_playing,
            !final(self).is_paused,
            final(self).current_path == old(self).current_path,
            final(self).duration_ms == old(self).duration_ms,
            final(self).pending == old(self).pending,
            final(self).last_reported_ms is None,
    {
        self.started_at_ms = None;
        self.pause_offset_ms = 0;
        self.position_ms = 0;
        self.is_playing = false;
        self.is_paused = false;
        self.last_reported_ms = None;
    }

    /// The decision for playing with the sink in state `sink`: resume a paused
    /// sink, open the current file for an empty one, nothing otherwise.
    fn play_with_sink(&mut self, sink: SinkState, now_ms: u64) -> (actions: Vec<EngineAction>)
        requires
            old(self).wf(),
            old(self).current_path is Some,
        ensures
            final(self).wf(),
            final(self).played_with_sink(*old(self), sink, now_ms, actions@),
            final(self).last_reported_ms == old(self).last_reported_ms,
    {
        let mut actions: Vec<EngineAction> = Vec::new();
        match sink {
            SinkState::Paused => {
                actions.push(EngineAction::ResumeSink);
                self.start_playing(now_ms);
                actions.push(EngineAction::Emit(PlayerEvent::Playing));
                self.pending = Pending::Idle;
            },
            SinkState::Empty => {
                let path = match &self.current_path {
                    Some(p) => p.clone(),
                    None => String::new(),
                };
                actions.push(EngineAction::OpenFile(path));
                self.pending = Pending::PlayFresh;
            },
            _ => {
                self.pending = Pending::Idle;
            },
        }
        actions
    }

    /// Handle one input: `sink` is what the audio sink reports now and `now_ms`
    /// the loop's clock. Returns the actions to carry out, in order.
    pub fn step(&mut self, input: EngineInput, sink: SinkState, now_ms: u64) -> (actions: Vec<
        EngineAction,
    >)
        requires
            old(self).wf(),
        ensures
            final(self).wf(),
            // Position reports restart after a stop, a seek or a load; nothing else
            // here touches them, and no position is reported here.
            final(self).last_reported_ms == if resets_reports(input, old(self).pending) {
                None
            } else {
                old(self).last_reported_ms
            },
            forall|i: int|
                0 <= i < actions@.len() ==> !(#[trigger] actions@[i] matches EngineAction::Emit(
                    PlayerEvent::Position(_),
                )),
            // Loading resets the sink and asks for the file, changing nothing else yet.
            input matches EngineInput::Command(EngineCommand::Load(path)) ==> {
                &&& final(self).pending == Pending::Load(path)
                &&& actions@ =~= seq![EngineAction::ResetSink, EngineAction::OpenFile(path)]
                &&& final(self).same_playback(*old(self))
            },
            input matches EngineInput::Command(EngineCommand::LoadAndPlay(path)) ==> {
                &&& final(self).pending == Pending::LoadAndPlay(path)
                &&& actions@ =~= seq![EngineAction::ResetSink, EngineAction::OpenFile(path)]
                &&& final(self).same_playback(*old(self))
            },
            // Playing needs a loaded file and a sink; a missing sink is asked for first.
            input matches EngineInput::Command(EngineCommand::Play) ==> if old(self).current_path is None {
                &&& final(self).pending == Pending::Idle
                &&& actions@.len() == 0
                &&& final(self).same_playback(*old(self))
            } else if sink == SinkState::Missing {
                &&& final(self).pending == Pending::PlayAfterSink
                &&& actions@ =~= seq![EngineAction::CreateSink]
                &&& final(self).same_playback(*old(self))
            } else {
                final(self).played_with_sink(*old(self), sink, now_ms, actions@)
            },
            // A sink that was asked for in order to play is used as `Play` would.
            input matches EngineInput::SinkReady ==> if old(self).pending matches Pending::PlayAfterSink
                && old(self).current_path is Some {
                final(self).played_with_sink(*old(self), sink, now_ms, actions@)
            } else {
                &&& final(self).pending == old(self).pending
                &&& actions@.len() == 0
                &&& final(self).same_playback(*old(self))
            },
            input matches EngineInput::Tick ==> {
                &&& final(self).pending == old(self).pending
                &&& actions@.len() == 0
                &&& final(self).same_playback(*old(self))
            },
            // Stopping rewinds to the start and reports it.
            input matches EngineInput::Command(EngineCommand::Stop) ==> {
                &&& final(self).position_ms == 0
                &&& final(self).pause_offset_ms == 0
                &&& !final(self).is_playing
                &&& !final(self).is_paused
                &&& final(self).started_at_ms is None
                &&& final(self).current_path == old(self).current_path
                &&& final(self).duration_ms == old(self).duration_ms
                &&& final(self).pending == Pending::Idle
                &&& actions@ =~= seq![EngineAction::ResetSink, EngineAction::Emit(PlayerEvent::Stopped)]
            },
            // Pausing a playing engine keeps what was played as the offset.
            input matches EngineInput::Command(EngineCommand::Pause) ==> if sink
                != SinkState::Missing && sink != SinkState::Paused && old(self).is_playing {
                &&& final(self).is_playing && final(self).is_paused
                &&& final(self).started_at_ms is None
                &&& final(self).pause_offset_ms == match old(self).started_at_ms {
                    Some(st) => sat_add(old(self).pause_offset_ms, sat_sub(now_ms, st)),
                    None => old(self).pause_offset_ms,
                }
                &&& final(self).current_path == old(self).current_path
                &&& final(self).duration_ms == old(self).duration_ms
                &&& final(self).position_ms == old(self).position_ms
                &&& final(self).pending == Pending::Idle
                &&& actions@ =~= seq![EngineAction::PauseSink, EngineAction::Emit(PlayerEvent::Paused)]
            } else {
                &&& final(self).same_playback(*old(self))
                &&& final(self).pending == Pending::Idle
                &&& actions@.len() == 0
            },
            // Seeking moves the position to the target, playing on if it was playing.
            input matches EngineInput::Command(EngineCommand::Seek(target)) ==> {
                &&& final(self).position_ms == target
                &&& final(self).pause_offset_ms == target
                &&& final(self).current_path == old(self).current_path
                &&& final(self).duration_ms == old(self).duration_ms
                &&& final(self).started_at_ms == old(self).started_at_ms
                &&& final(self).is_playing == old(self).is_playing
                &&& final(self).is_paused == old(self).is_paused
                &&& if old(self).running() && old(self).current_path is Some {
                    &&& final(self).pending == Pending::SeekRestart(target)
                    &&& actions@ =~= seq![
                        EngineAction::ResetSink,
                        EngineAction::OpenFile(old(self).current_path->Some_0),
                    ]
                } else {
                    &&& final(self).pending == Pending::Idle
                    &&& actions@ =~= seq![EngineAction::ResetSink]
                }
            },
            // Loading reports the duration and leaves the engine stopped at the start.
            input matches EngineInput::Opened(d) ==> (old(self).pending matches Pending::Load(p) ==> {
                &&& final(self).current_path == Some(p)
                &&& final(self).duration_ms == d
                &&& final(self).position_ms == 0
                &&& final(self).pause_offset_ms == 0
                &&& !final(self).is_playing
                &&& !final(self).is_paused
                &&& final(self).started_at_ms is None
                &&& final(self).pending == Pending::Idle
                &&& actions@ =~= seq![
                    EngineAction::DiscardSource,
                    EngineAction::Emit(PlayerEvent::Loaded { duration_ms: d }),
                ]
            }),
            input matches EngineInput::Opened(d) ==> (old(self).pending matches Pending::LoadAndPlay(p) ==> {
                &&& final(self).current_path == Some(p)
                &&& final(self).duration_ms == d
                &&& final(self).position_ms == 0
                &&& final(self).pause_offset_ms == 0
                &&& final(self).pending == Pending::Idle
                &&& if sink != SinkState::Missing {
                    &&& final(self).started_at_ms == Some(now_ms)
                    &&& final(self).running()
                    &&& actions@ =~= seq![
                        EngineAction::Emit(PlayerEvent::Loaded { duration_ms: d }),
                        EngineAction::AppendAndPlay(None),
                        EngineAction::Emit(PlayerEvent::Playing),
                    ]
                } else {
                    &&& final(self).started_at_ms == old(self).started_at_ms
                    &&& final(self).is_playing == old(self).is_playing
                    &&& final(self).is_paused == old(self).is_paused
                    &&& actions@ =~= seq![
                        EngineAction::Emit(PlayerEvent::Loaded { duration_ms: d }),
                        EngineAction::DiscardSource,
                    ]
                }
            }),
            // Playing afresh skips what was played before the pause.
            input matches EngineInput::Opened(d) ==> (old(self).pending matches Pending::PlayFresh ==> {
                &&& final(self).started_at_ms == Some(now_ms)
                &&& final(self).running()
                &&& final(self).pending == Pending::Idle
                &&& final(self).current_path == old(self).current_path
                &&& final(self).duration_ms == old(self).duration_ms
                &&& final(self).position_ms == old(self).position_ms
                &&& final(self).pause_offset_ms == old(self).pause_offset_ms
                &&& actions@ =~= seq![
                    EngineAction::AppendAndPlay(
                        if old(self).pause_offset_ms > 0 {
                            Some(old(self).pause_offset_ms)
                        } else {
                            None
                        },
                    ),
                    EngineAction::Emit(PlayerEvent::Playing),
                ]
            }),
            // A seek while playing plays on from the target.
            input matches EngineInput::Opened(d) ==> (old(self).pending matches Pending::SeekRestart(t) ==> {
                &&& final(self).pending == Pending::Idle
                &&& final(self).current_path == old(self).current_path
                &&& final(self).duration_ms == old(self).duration_ms
                &&& final(self).position_ms == old(self).position_ms
                &&& final(self).pause_offset_ms == old(self).pause_offset_ms
                &&& if sink != SinkState::Missing {
                    &&& final(self).started_at_ms == Some(now_ms)
                    &&& final(self).running()
                    &&& actions@ =~= seq![EngineAction::AppendAndPlay(Some(t))]
                } else {
                    &&& final(self).started_at_ms == old(self).started_at_ms
                    &&& final(self).is_playing == old(self).is_playing
                    &&& final(self).is_paused == old(self).is_paused
                    &&& actions@ =~= seq![EngineAction::DiscardSource]
                }
            }),
            // A source that nothing waits for is dropped.
            input matches EngineInput::Opened(d) ==> (match old(self).pending {
                Pending::Idle | Pending::PlayAfterSink | Pending::Done => {
                    &&& final(self).pending == if old(self).pending is Done {
                        Pending::Done
                    } else {
                        Pending::Idle
                    }
                    &&& actions@ =~= seq![EngineAction::DiscardSource]
                    &&& final(self).same_playback(*old(self))
                },
                _ => true,
            }),
            // A failed open is reported, except when restarting after a seek.
            input matches EngineInput::OpenFailed(e) ==> {
                &&& match old(self).pending {
                    Pending::Load(_) | Pending::LoadAndPlay(_) | Pending::PlayFresh => {
                        &&& actions@.len() == 1
                        &&& is_error_action(actions@[0], open_error_text(e@))
                    },
                    _ => actions@.len() == 0,
                }
                &&& final(self).pending == if old(self).pending is Done {
                    Pending::Done
                } else {
                    Pending::Idle
                }
                &&& final(self).same_playback(*old(self))
            },
            input matches EngineInput::DecodeFailed(e) ==> {
                &&& match old(self).pending {
                    Pending::Load(_) | Pending::LoadAndPlay(_) => {
                        &&& actions@.len() == 1
                        &&& is_error_action(actions@[0], decode_error_text(e@))
                    },
                    _ => actions@.len() == 0,
                }
                &&& final(self).pending == if old(self).pending is Done {
                    Pending::Done
                } else {
                    Pending::Idle
                }
                &&& final(self).same_playback(*old(self))
            },
            // Shutting down drops the sink and ends the loop.
            input matches EngineInput::Command(EngineCommand::Shutdown) ==> {
                &&& final(self).pending == Pending::Done
                &&& final(self).same_playback(*old(self))
                &&& actions@ =~= seq![EngineAction::DropSink, EngineAction::Exit]
            },
    {
        let mut actions: Vec<EngineAction> = Vec::new();
        match input {
            EngineInput::Command(cmd) => match cmd {
                EngineCommand::Load(path) => {
                    actions.push(EngineAction::ResetSink);
                    actions.push(EngineAction::OpenFile(path.clone()));
                    self.pending = Pending::Load(path);
                },
                EngineCommand::LoadAndPlay(path) => {
                    actions.push(EngineAction::ResetSink);
                    actions.push(EngineAction::OpenFile(path.clone()));
                    self.pending = Pending::LoadAndPlay(path);
                },
                EngineCommand::Play => {
                    if self.current_path.is_some() {
                        if sink == SinkState::Missing {
                            actions.push(EngineAction::CreateSink);
                            self.pending = Pending::PlayAfterSink;
                        } else {
                            actions = self.play_with_sink(sink, now_ms);
                        }
                    } else {
                        self.pending = Pending::Idle;
                    }
                },
                EngineCommand::Pause => {
                    if sink != SinkState::Missing && sink != SinkState::Paused && self.is_playing {
                        if let Some(st) = self.started_at_ms {
                            let elapsed = now_ms.saturating_sub(st);
                            self.pause_offset_ms = self.pause_offset_ms.saturating_add(elapsed);
                        }
                        actions.push(EngineAction::PauseSink);
                        self.started_at_ms = None;
                        self.is_playing = true;
                        self.is_paused = true;
                        actions.push(EngineAction::Emit(PlayerEvent::Paused));
                    }
                    self.pending = Pending::Idle;
                },
                EngineCommand::Stop => {
                    actions.push(EngineAction::ResetSink);
                    self.rewind();
                    actions.push(EngineAction::Emit(PlayerEvent::Stopped));
                    self.pending = Pending::Idle;
                },
                EngineCommand::Seek(target) => {
                    let was_playing = self.is_playing && !self.is_paused;
                    actions.push(EngineAction::ResetSink);
                    self.pause_offset_ms = target;
                    self.position_ms = target;
                    self.last_reported_ms = None;
                    match &self.current_path {
                        Some(p) => {
                            if was_playing {
                                actions.push(EngineAction::OpenFile(p.clone()));
                                self.pending = Pending::SeekRestart(target);
                            } else {
                                self.pending = Pending::Idle;
                            }
                        },
                        None => {
                            self.pending = Pending::Idle;
                        },
                    }
                },
                EngineCommand::Shutdown => {
                    actions.push(EngineAction::DropSink);
                    actions.push(EngineAction::Exit);
                    self.pending = Pending::Done;
                },
            },
            EngineInput::SinkReady => {
                if matches!(self.pending, Pending::PlayAfterSink) && self.current_path.is_some() {
                    actions = self.play_with_sink(sink, now_ms);
                }
            },
            EngineInput::Opened(duration_ms) => {
                let mut pending = Pending::Idle;
                std::mem::swap(&mut pending, &mut self.pending);
                match pending {
                    Pending::Load(path) => {
                        self.duration_ms = duration_ms;
                        self.current_path = Some(path);
                        self.rewind();
                        actions.push(EngineAction::DiscardSource);
                        actions.push(EngineAction::Emit(PlayerEvent::Loaded { duration_ms }));
                    },
                    Pending::LoadAndPlay(path) => {
                        self.duration_ms = duration_ms;
                        self.position_ms = 0;
                        self.current_path = Some(path);
                        self.pause_offset_ms = 0;
                        self.last_reported_ms = None;
                        actions.push(EngineAction::Emit(PlayerEvent::Loaded { duration_ms }));
                        if sink != SinkState::Missing {
                            actions.push(EngineAction::AppendAndPlay(None));
                            self.start_playing(now_ms);
                            actions.push(EngineAction::Emit(PlayerEvent::Playing));
                        } else {
                            actions.push(EngineAction::DiscardSource);
                        }
                    },
                    Pending::PlayFresh => {
                        let skip = if self.pause_offset_ms > 0 {
                            Some(self.pause_offset_ms)
                        } else {
                            None
                        };
                        actions.push(EngineAction::AppendAndPlay(skip));
                        self.start_playing(now_ms);
                        actions.push(EngineAction::Emit(PlayerEvent::Playing));
                    },
                    Pending::SeekRestart(target) => {
                        if sink != SinkState::Missing {
                            actions.push(EngineAction::AppendAndPlay(Some(target)));
                            self.start_playing(now_ms);
                        } else {
                            actions.push(EngineAction::DiscardSource);
                        }
                    },
                    Pending::Done => {
                        actions.push(EngineAction::DiscardSource);
                        self.pending = Pending::Done;
                    },
                    _ => {
                        actions.push(EngineAction::DiscardSource);
                    },
                }
            },
            EngineInput::OpenFailed(e) => {
                match self.pending {
                    Pending::Load(_) | Pending::LoadAndPlay(_) | Pending::PlayFresh => {
                        let mut m = String::from_str("Failed to open file: ");
                        push_str(&mut m, e.as_str());
                        actions.push(EngineAction::Emit(PlayerEvent::Error(m)));
                    },
                    _ => {},
                }
                if !matches!(self.pending, Pending::Done) {
                    self.pending = Pending::Idle;
                }
            },
            EngineInput::DecodeFailed(e) => {
                match self.pending {
                    Pending::Load(_) | Pending::LoadAndPlay(_) => {
                        let mut m = String::from_str("Failed to decode: ");
                        push_str(&mut m, e.as_str());
                        actions.push(EngineAction::Emit(PlayerEvent::Error(m)));
                    },
                    _ => {},
                }
                if !matches!(self.pending, Pending::Done) {
                    self.pending = Pending::Idle;
                }
            },
            EngineInput::Tick => {},
        }
        actions
    }

    /// Update the position while playing: `now_ms` on the loop's clock. Playback
    /// that reached the duration rewinds and reports that the track finished;
    /// otherwise the position is updated, and reported where it moved by at least
    /// 100 ms since the last report (or nothing was reported since the last reset).
    pub fn tick(&mut self, now_ms: u64) -> (actions: Vec<EngineAction>)
        requires
            old(self).wf(),
        ensures
            final(self).wf(),
            ticked(*old(self), now_ms, *final(self), actions@),
            // Every position reported lies before the end of the track, moved by at
            // least 100 ms from the one reported before it, and is remembered.
            forall|i: int|
                0 <= i < actions@.len() ==> (#[trigger] actions@[i] matches EngineAction::Emit(
                    PlayerEvent::Position(p),
                ) ==> p < old(self).duration_ms && report_due(old(self).last_reported_ms, p)
                    && final(self).last_reported_ms == Some(p)),
    {
        let mut actions: Vec<EngineAction> = Vec::new();
        if self.is_playing && !self.is_paused {
            if let Some(st) = self.started_at_ms {
                let elapsed = now_ms.saturating_sub(st);
                let current_pos = self.pause_offset_ms.saturating_add(elapsed);
                if current_pos >= self.duration_ms {
                    actions.push(EngineAction::ResetSink);
                    self.rewind();
                    actions.push(EngineAction::Emit(PlayerEvent::TrackFinished));
                } else {
                    self.position_ms = current_pos;
                    let due = match self.last_reported_ms {
                        None => true,
                        Some(l) => if current_pos >= l {
                            current_pos - l >= 100
                        } else {
                            l - current_pos >= 100
                        },
                    };
                    if due {
                        self.last_reported_ms = Some(current_pos);
                        actions.push(EngineAction::Emit(PlayerEvent::Position(current_pos)));
                    }
                }
            }
        }
        actions
    }
}

} // verus!
