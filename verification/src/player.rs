//! Decision core of the playback engine.
//!
//! The engine runs as a single-owner actor: one execution context owns
//! the output device and the live sink, consumes commands and a periodic
//! tick, and is the only writer of the shared snapshot. Everything that
//! actor decides is a transition of [`PlayerCore`] defined here: the
//! outside world enters only as plain facts (did the sink open, does the
//! file exist, how much wall-clock time elapsed), and each handler's
//! contract pins the new state, the reply and the emitted events for
//! every case.

use vstd::prelude::*;
use vstd::string::*;
use crate::errors::AppError;
use crate::models::{PlaybackEvent, PlaybackState, Track, initial_playback_state, track_like};
use crate::paths::spec_extension;
use crate::chain::all_strategies_failed_text;

verus! {

/// A command sent to the actor, one per caller round-trip. Each
/// command owns a single-use reply slot; here the reply is the
/// handler's return value, which the shell forwards to the caller.
#[derive(Debug, Clone, PartialEq)]
pub enum Command {
    PlayTrack(Track),
    Pause,
    Resume,
    Stop,
    /// Requested volume in thousandths of full scale; clamped by the
    /// actor.
    SetVolume(i64),
    /// Requested position in milliseconds; never supported.
    Seek(u64),
}

/// The facts the actor gathered while attempting to start playback:
/// whether a sink could be created (with the device layer's detail text
/// when not), whether the file exists, its size, and whether any decode
/// strategy produced a stream.
#[derive(Debug, Clone, PartialEq)]
pub struct PlayAttempt {
    pub sink_ok: bool,
    /// Detail text of the device layer when sink creation failed;
    /// empty otherwise.
    pub sink_detail: String,
    pub file_exists: bool,
    pub file_size: u64,
    pub decode_ok: bool,
}

/// The actor's private view of the engine: whether a live sink exists,
/// whether a wall-clock baseline for position tracking is set, the last
/// position for which a change event was emitted, and the shared
/// snapshot.
#[derive(Debug)]
pub struct PlayerCore {
    pub has_sink: bool,
    pub baseline_set: bool,
    /// Position in milliseconds of the last `PositionChanged` emission.
    pub last_emitted: u64,
    pub state: PlaybackState,
}

/// Threshold in milliseconds below which position movement is not
/// reported.
pub const POSITION_EPSILON_MS: u64 = 500;

/// Upper bound of the stored volume, in thousandths of full scale.
pub const VOLUME_SCALE: u32 = 1000;

/// A requested volume clamped into the stored range.
pub open spec fn spec_clamp_volume(v: int) -> int {
    if v < 0 {
        0
    } else if v > VOLUME_SCALE as int {
        VOLUME_SCALE as int
    } else {
        v
    }
}

/// Saturating addition of two positions in milliseconds.
pub open spec fn sat_add(a: u64, b: u64) -> u64 {
    if a + b > u64::MAX as int {
        u64::MAX
    } else {
        (a + b) as u64
    }
}

/// Distance between two positions in milliseconds.
pub open spec fn abs_diff(a: u64, b: u64) -> u64 {
    if a >= b {
        (a - b) as u64
    } else {
        (b - a) as u64
    }
}

impl PlayerCore {
    /// The internal invariant of the actor: the volume is stored
    /// clamped; playback implies a current track and a live sink; a
    /// position baseline exists only while playing; a live sink always
    /// belongs to a loaded track; the position never passes the
    /// duration; and without a track the position fields are zero.
    pub open spec fn wf(self) -> bool {
        &&& self.state.volume <= VOLUME_SCALE
        &&& self.state.is_playing ==> self.has_sink
        &&& self.baseline_set ==> self.state.is_playing
        &&& self.has_sink <==> self.state.current_track is Some
        &&& self.state.current_track is Some ==> self.state.current_time <= self.state.duration
        &&& self.state.current_track is None ==> !self.state.is_playing
            && self.state.current_time == 0 && self.state.duration == 0
    }

    /// A fresh core: no sink, no baseline, the initial snapshot.
    pub fn new() -> (core: PlayerCore)
        ensures
            core.wf(),
            !core.has_sink,
            !core.baseline_set,
            core.last_emitted == 0,
            core.state == initial_playback_state(),
    {
        PlayerCore {
            has_sink: false,
            baseline_set: false,
            last_emitted: 0,
            state: PlaybackState {
                current_track: None,
                is_playing: false,
                current_time: 0,
                duration: 0,
                volume: VOLUME_SCALE,
            },
        }
    }
}

/// The extension named in a decode failure, `unknown` when the path has
/// none.
pub open spec fn spec_extension_or_unknown(path: Seq<char>) -> Seq<char> {
    match spec_extension(path) {
        Some(e) => e,
        None => "unknown"@,
    }
}

/// The error text of a failed play attempt, chosen by the first check
/// that fails: sink creation, existence, emptiness, then decoding.
pub open spec fn spec_play_error_text(path: Seq<char>, io: PlayAttempt) -> Seq<char> {
    if !io.sink_ok {
        "Failed to create sink: "@ + io.sink_detail@
    } else if !io.file_exists {
        "Audio file not found: "@ + path
    } else if io.file_size == 0 {
        "Audio file is empty: "@ + path
    } else {
        "Failed to decode audio file '"@ + path + "' (format: "@ + spec_extension_or_unknown(path)
            + "): "@ + all_strategies_failed_text()
            + ". The audio file appears to be corrupted and cannot be played."@
    }
}

/// Whether a lowercased extension belongs to the set the engine
/// accepts for playback.
pub open spec fn spec_playable_extension(e: Seq<char>) -> bool {
    e == "mp3"@ || e == "flac"@ || e == "wav"@ || e == "ogg"@ || e == "m4a"@
}

/// The lowercased extension named in a validation failure, `unknown`
/// when the path has none.
pub open spec fn spec_lower_extension_or_unknown(path: Seq<char>) -> Seq<char> {
    match spec_extension(path) {
        Some(e) => crate::paths::lower_chars(e),
        None => "unknown"@,
    }
}

/// What validating an audio file decides, given the path, the outside
/// facts about the file, and its bytes: the first failing check names
/// the failure, and a file passes exactly when it exists, is non-empty,
/// carries a recognized extension of the supported set, and some decode
/// strategy accepts it. A path without an extension has no recognized
/// format and is rejected.
pub open spec fn spec_validate(
    path: Seq<char>,
    file_exists: bool,
    file_size: u64,
    data: Seq<u8>,
) -> Result<(), Seq<char>> {
    if !file_exists {
        Err("Audio file not found: "@ + path)
    } else if file_size == 0 {
        Err("Audio file is empty: "@ + path)
    } else if !(match spec_extension(path) {
        Some(e) => spec_playable_extension(crate::paths::lower_chars(e)),
        None => false,
    }) {
        Err(
            "Unsupported audio format: ."@ + spec_lower_extension_or_unknown(path)
                + " (supported: mp3, flac, wav, ogg, m4a)"@,
        )
    } else if crate::chain::first_true(
        crate::chain::spec_outcomes(data, crate::chain::spec_plan(data)),
    ) is None {
        Err(
            "Cannot decode audio file '"@ + path + "' (format: "@
                + spec_lower_extension_or_unknown(path) + "): "@ + all_strategies_failed_text()
                + ". The file may be corrupted or use an unsupported codec."@,
        )
    } else {
        Ok(())
    }
}

/// Validate that a file can be played: it must exist, be non-empty,
/// carry a recognized extension of the supported set, and be accepted
/// by some strategy of the resolution chain. The caller supplies the
/// file's existence, its size and its bytes; the decision and the
/// exact failure text are proved.
pub fn validate_audio_file(path: &str, file_exists: bool, file_size: u64, data: &Vec<u8>) -> (r:
    Result<(), AppError>)
    ensures
        match spec_validate(path@, file_exists, file_size, data@) {
            Ok(()) => r is Ok,
            Err(t) => r matches Err(e) && e matches AppError::Playback(m) && m@ == t,
        },
{
    if !file_exists {
        let m = String::from_str("Audio file not found: ").concat(path);
        return Err(AppError::Playback(m));
    }
    if file_size == 0 {
        let m = String::from_str("Audio file is empty: ").concat(path);
        return Err(AppError::Playback(m));
    }
    let ext_lower: Option<String> = match crate::paths::extension(path) {
        Some(e) => Some(crate::paths::to_lowercase(e)),
        None => None,
    };
    let supported = match &ext_lower {
        Some(low) => crate::paths::str_eq(low.as_str(), "mp3") || crate::paths::str_eq(
            low.as_str(),
            "flac",
        ) || crate::paths::str_eq(low.as_str(), "wav") || crate::paths::str_eq(low.as_str(), "ogg")
            || crate::paths::str_eq(low.as_str(), "m4a"),
        None => false,
    };
    let format_name = match &ext_lower {
        Some(low) => low.as_str(),
        None => "unknown",
    };
    if !supported {
        let m = String::from_str("Unsupported audio format: .").concat(format_name).concat(
            " (supported: mp3, flac, wav, ogg, m4a)",
        );
        return Err(AppError::Playback(m));
    }
    match crate::chain::create_robust_decoder(data) {
        Ok(_) => Ok(()),
        Err(_) => {
            let m = String::from_str("Cannot decode audio file '").concat(path).concat(
                "' (format: ",
            ).concat(format_name).concat("): ").concat(
                "All decoding strategies failed. The file may be corrupted or use an unsupported MP3 encoding.",
            ).concat(". The file may be corrupted or use an unsupported codec.");
            Err(AppError::Playback(m))
        },
    }
}

/// Whether a play attempt's outside facts allow playback to start.
pub open spec fn play_io_ok(io: PlayAttempt) -> bool {
    io.sink_ok && io.file_exists && io.file_size > 0 && io.decode_ok
}

/// State after a failed play attempt: the existing sink is stopped and
/// dropped before anything else, so on failure no sink is live, nothing
/// is playing, and no track remains loaded; only the stored volume and
/// the last reported position survive.
pub open spec fn play_fail_step(s: PlayerCore) -> PlayerCore {
    PlayerCore {
        has_sink: false,
        baseline_set: false,
        last_emitted: s.last_emitted,
        state: PlaybackState {
            current_track: None,
            is_playing: false,
            current_time: 0,
            duration: 0,
            volume: s.state.volume,
        },
    }
}

/// State after a play attempt: on success the track is loaded at
/// position zero and playing; on failure the engine is left stopped
/// with the old sink dropped.
pub open spec fn play_step(s: PlayerCore, track: Track, io: PlayAttempt) -> PlayerCore {
    if play_io_ok(io) {
        PlayerCore {
            has_sink: true,
            baseline_set: true,
            last_emitted: s.last_emitted,
            state: PlaybackState {
                current_track: Some(track),
                is_playing: true,
                current_time: 0,
                duration: track.duration,
                volume: s.state.volume,
            },
        }
    } else {
        play_fail_step(s)
    }
}

/// State after `Pause`: playback suspended when a sink is live and
/// playing; a no-op otherwise.
pub open spec fn pause_step(s: PlayerCore) -> PlayerCore {
    if s.has_sink && s.state.is_playing {
        PlayerCore {
            baseline_set: false,
            state: PlaybackState { is_playing: false, ..s.state },
            ..s
        }
    } else {
        s
    }
}

/// Whether `Pause` emits `TrackPaused`.
pub open spec fn pause_emits(s: PlayerCore) -> bool {
    s.has_sink && s.state.is_playing
}

/// State after `Resume`: playback restarted when a sink is live and
/// paused; a no-op otherwise.
pub open spec fn resume_step(s: PlayerCore) -> PlayerCore {
    if s.has_sink && !s.state.is_playing {
        PlayerCore {
            baseline_set: true,
            state: PlaybackState { is_playing: true, ..s.state },
            ..s
        }
    } else {
        s
    }
}

/// Whether `Resume` emits `TrackResumed`.
pub open spec fn resume_emits(s: PlayerCore) -> bool {
    s.has_sink && !s.state.is_playing
}

/// State after `Stop`: the sink is dropped and the snapshot reset to no
/// track; the stored volume survives.
pub open spec fn stop_step(s: PlayerCore) -> PlayerCore {
    PlayerCore {
        has_sink: false,
        baseline_set: false,
        state: PlaybackState {
            current_track: None,
            is_playing: false,
            current_time: 0,
            duration: 0,
            volume: s.state.volume,
        },
        ..s
    }
}

/// Whether `Stop` emits `TrackStopped`: only when a sink existed.
pub open spec fn stop_emits(s: PlayerCore) -> bool {
    s.has_sink
}

/// State after `SetVolume`: the clamped level is stored
/// unconditionally.
pub open spec fn set_volume_step(s: PlayerCore, v: i64) -> PlayerCore {
    PlayerCore {
        state: PlaybackState { volume: spec_clamp_volume(v as int) as u32, ..s.state },
        ..s
    }
}

/// State and events after one periodic tick, given the wall-clock
/// elapsed milliseconds since the baseline and whether the sink reports
/// itself paused. While playing, the position advances and is reported
/// when it moved at least [`POSITION_EPSILON_MS`] since the last
/// report; an overshoot past the duration finishes the track.
pub open spec fn tick_step(s: PlayerCore, elapsed: u64, sink_paused: bool) -> (
    PlayerCore,
    Seq<PlaybackEvent>,
) {
    if s.has_sink && s.state.is_playing && !sink_paused && s.baseline_set {
        let new_pos = sat_add(s.state.current_time, elapsed);
        if new_pos <= s.state.duration {
            let moved = PlayerCore { state: PlaybackState { current_time: new_pos, ..s.state }, ..s };
            if abs_diff(new_pos, s.last_emitted) >= POSITION_EPSILON_MS {
                (
                    PlayerCore { last_emitted: new_pos, ..moved },
                    seq![PlaybackEvent::PositionChanged(new_pos)],
                )
            } else {
                (moved, Seq::<PlaybackEvent>::empty())
            }
        } else {
            (
                PlayerCore {
                    baseline_set: false,
                    state: PlaybackState {
                        current_time: s.state.duration,
                        is_playing: false,
                        ..s.state
                    },
                    ..s
                },
                seq![PlaybackEvent::TrackFinished],
            )
        }
    } else {
        (s, Seq::<PlaybackEvent>::empty())
    }
}

/// State after one command, dispatched to the step of its variant. The
/// play attempt's facts matter only to `PlayTrack`; `Seek` never
/// changes anything.
pub open spec fn command_step(s: PlayerCore, cmd: Command, io: PlayAttempt) -> PlayerCore {
    match cmd {
        Command::PlayTrack(t) => play_step(s, t, io),
        Command::Pause => pause_step(s),
        Command::Resume => resume_step(s),
        Command::Stop => stop_step(s),
        Command::SetVolume(v) => set_volume_step(s, v),
        Command::Seek(_) => s,
    }
}

/// One unit of work the actor performs: a command with the outside
/// facts it gathered, or a periodic tick.
pub enum ActorInput {
    Cmd(Command, PlayAttempt),
    Tick(u64, bool),
}

/// State after one unit of actor work.
pub open spec fn actor_step(s: PlayerCore, inp: ActorInput) -> PlayerCore {
    match inp {
        ActorInput::Cmd(c, io) => command_step(s, c, io),
        ActorInput::Tick(elapsed, sink_paused) => tick_step(s, elapsed, sink_paused).0,
    }
}

/// State after a whole serialized run of commands and ticks, in the
/// order the actor consumed them.
pub open spec fn run_actor(s: PlayerCore, inputs: Seq<ActorInput>) -> PlayerCore
    decreases inputs.len(),
{
    if inputs.len() == 0 {
        s
    } else {
        run_actor(actor_step(s, inputs[0]), inputs.drop_first())
    }
}

/// Law: every single unit of actor work preserves the invariant, so in
/// particular the stored volume stays in `0..=1000`.
pub proof fn lemma_actor_step_preserves_wf(s: PlayerCore, inp: ActorInput)
    requires
        s.wf(),
    ensures
        actor_step(s, inp).wf(),
{
}

/// Law: however many commands and ticks the actor serializes, in
/// whatever interleaving, the invariant holds afterwards and the stored
/// volume lies in `0..=1000`.
pub proof fn lemma_run_actor_preserves_wf(s: PlayerCore, inputs: Seq<ActorInput>)
    requires
        s.wf(),
    ensures
        run_actor(s, inputs).wf(),
        run_actor(s, inputs).state.volume <= VOLUME_SCALE,
    decreases inputs.len(),
{
    if inputs.len() > 0 {
        lemma_actor_step_preserves_wf(s, inputs[0]);
        lemma_run_actor_preserves_wf(actor_step(s, inputs[0]), inputs.drop_first());
    }
}

/// Law: with no live sink (hence no loaded track), `Pause`, `Resume`
/// and `Stop` change nothing and emit nothing; their handlers always
/// reply with success.
pub proof fn lemma_noop_without_sink(s: PlayerCore)
    requires
        s.wf(),
        !s.has_sink,
    ensures
        pause_step(s) == s,
        resume_step(s) == s,
        stop_step(s) == s,
        !pause_emits(s),
        !resume_emits(s),
        !stop_emits(s),
{
}

/// Law: a tick while playing within the duration reports the new
/// position exactly when it moved at least [`POSITION_EPSILON_MS`]
/// since the last report, and then records it as the new reference, so
/// each crossing of the threshold is reported exactly once and
/// sub-threshold movement never is.
pub proof fn lemma_position_debounce(s: PlayerCore, elapsed: u64, sink_paused: bool)
    requires
        s.wf(),
        s.has_sink && s.state.is_playing && !sink_paused && s.baseline_set,
        sat_add(s.state.current_time, elapsed) <= s.state.duration,
    ensures
        ({
            let new_pos = sat_add(s.state.current_time, elapsed);
            let (s2, ev) = tick_step(s, elapsed, sink_paused);
            &&& s2.state.current_time == new_pos
            &&& abs_diff(new_pos, s.last_emitted) >= POSITION_EPSILON_MS ==> ev == seq![
                PlaybackEvent::PositionChanged(new_pos),
            ] && s2.last_emitted == new_pos
            &&& abs_diff(new_pos, s.last_emitted) < POSITION_EPSILON_MS ==> ev
                == Seq::<PlaybackEvent>::empty() && s2.last_emitted == s.last_emitted
        }),
{
}

/// Law: when the elapsed time pushes the position past the duration,
/// the very next tick emits exactly one `TrackFinished`, playback stops
/// with the position clamped to the duration, and any further tick
/// emits nothing and changes nothing.
pub proof fn lemma_track_finished_fires_once(
    s: PlayerCore,
    e1: u64,
    p1: bool,
    e2: u64,
    p2: bool,
)
    requires
        s.wf(),
        s.has_sink && s.state.is_playing && !p1 && s.baseline_set,
        sat_add(s.state.current_time, e1) > s.state.duration,
    ensures
        ({
            let (s2, ev) = tick_step(s, e1, p1);
            &&& ev == seq![PlaybackEvent::TrackFinished]
            &&& !s2.state.is_playing
            &&& s2.state.current_time == s2.state.duration
            &&& tick_step(s2, e2, p2).0 == s2
            &&& tick_step(s2, e2, p2).1 == Seq::<PlaybackEvent>::empty()
        }),
{
}

impl PlayerCore {
    /// Attempt to start playback of `track`, given the outside facts of
    /// the attempt. The existing sink is stopped and dropped first. On
    /// success the snapshot holds the track, playing from position zero
    /// at the stored volume, and `TrackStarted` is emitted; any failure
    /// leaves the engine stopped with no track loaded and reports which
    /// check failed, without emitting an event.
    pub fn handle_play_track(&mut self, track: Track, io: PlayAttempt) -> (res: (
        Result<(), AppError>,
        Vec<PlaybackEvent>,
    ))
        requires
            old(self).wf(),
        ensures
            final(self).wf(),
            *final(self) == play_step(*old(self), track, io),
            play_io_ok(io) ==> res.0 is Ok && res.1@.len() == 1 && (res.1@[0] matches
                PlaybackEvent::TrackStarted(t) && track_like(track, t)),
            !play_io_ok(io) ==> res.1@ == Seq::<PlaybackEvent>::empty() && (res.0 matches Err(e)
                && e matches AppError::Playback(m) && m@ == spec_play_error_text(
                track.file_path@,
                io,
            )),
    {
        let mut events: Vec<PlaybackEvent> = Vec::new();
        let failure: Option<String> = if !io.sink_ok {
            Some(String::from_str("Failed to create sink: ").concat(io.sink_detail.as_str()))
        } else if !io.file_exists {
            Some(String::from_str("Audio file not found: ").concat(track.file_path.as_str()))
        } else if io.file_size == 0 {
            Some(String::from_str("Audio file is empty: ").concat(track.file_path.as_str()))
        } else if !io.decode_ok {
            let ext = match crate::paths::extension(track.file_path.as_str()) {
                Some(e) => e.to_owned(),
                None => String::from_str("unknown"),
            };
            Some(
                String::from_str("Failed to decode audio file '").concat(
                    track.file_path.as_str(),
                ).concat("' (format: ").concat(ext.as_str()).concat("): ").concat(
                    "All decoding strategies failed. The file may be corrupted or use an unsupported MP3 encoding.",
                ).concat(". The audio file appears to be corrupted and cannot be played."),
            )
        } else {
            None
        };
        if let Some(m) = failure {
            self.has_sink = false;
            self.baseline_set = false;
            self.state.is_playing = false;
            self.state.current_track = None;
            self.state.current_time = 0;
            self.state.duration = 0;
            return (Err(AppError::Playback(m)), events);
        }
        let started = track.clone();
        self.has_sink = true;
        self.baseline_set = true;
        self.state.is_playing = true;
        self.state.current_time = 0;
        self.state.duration = track.duration;
        self.state.current_track = Some(track);
        events.push(PlaybackEvent::TrackStarted(started));
        (Ok(()), events)
    }

    /// Pause playback. A no-op that still succeeds when nothing is
    /// playing or no sink exists.
    pub fn handle_pause(&mut self) -> (res: (Result<(), AppError>, Vec<PlaybackEvent>))
        requires
            old(self).wf(),
        ensures
            final(self).wf(),
            *final(self) == pause_step(*old(self)),
            res.0 is Ok,
            res.1@ == if pause_emits(*old(self)) {
                seq![PlaybackEvent::TrackPaused]
            } else {
                Seq::<PlaybackEvent>::empty()
            },
    {
        let mut events: Vec<PlaybackEvent> = Vec::new();
        if self.has_sink && self.state.is_playing {
            self.state.is_playing = false;
            self.baseline_set = false;
            events.push(PlaybackEvent::TrackPaused);
            proof {
                assert(events@ =~= seq![PlaybackEvent::TrackPaused]);
            }
        }
        (Ok(()), events)
    }

    /// Resume playback. A no-op that still succeeds when already
    /// playing or no sink exists.
    pub fn handle_resume(&mut self) -> (res: (Result<(), AppError>, Vec<PlaybackEvent>))
        requires
            old(self).wf(),
        ensures
            final(self).wf(),
            *final(self) == resume_step(*old(self)),
            res.0 is Ok,
            res.1@ == if resume_emits(*old(self)) {
                seq![PlaybackEvent::TrackResumed]
            } else {
                Seq::<PlaybackEvent>::empty()
            },
    {
        let mut events: Vec<PlaybackEvent> = Vec::new();
        if self.has_sink && !self.state.is_playing {
            self.state.is_playing = true;
            self.baseline_set = true;
            events.push(PlaybackEvent::TrackResumed);
            proof {
                assert(events@ =~= seq![PlaybackEvent::TrackResumed]);
            }
        }
        (Ok(()), events)
    }

    /// Stop playback and unload the track. Succeeds also when nothing
    /// was loaded; `TrackStopped` is emitted only when a sink existed.
    pub fn handle_stop(&mut self) -> (res: (Result<(), AppError>, Vec<PlaybackEvent>))
        requires
            old(self).wf(),
        ensures
            final(self).wf(),
            *final(self) == stop_step(*old(self)),
            res.0 is Ok,
            res.1@ == if stop_emits(*old(self)) {
                seq![PlaybackEvent::TrackStopped]
            } else {
                Seq::<PlaybackEvent>::empty()
            },
    {
        let mut events: Vec<PlaybackEvent> = Vec::new();
        if self.has_sink {
            self.state.is_playing = false;
            self.state.current_track = None;
            self.state.current_time = 0;
            self.state.duration = 0;
            self.baseline_set = false;
            events.push(PlaybackEvent::TrackStopped);
            proof {
                assert(events@ =~= seq![PlaybackEvent::TrackStopped]);
            }
        }
        self.has_sink = false;
        (Ok(()), events)
    }

    /// Store the requested volume clamped into `0..=1000` and report the
    /// stored level. Succeeds with or without an active track.
    pub fn handle_set_volume(&mut self, volume: i64) -> (res: (
        Result<(), AppError>,
        Vec<PlaybackEvent>,
    ))
        requires
            old(self).wf(),
        ensures
            final(self).wf(),
            *final(self) == set_volume_step(*old(self), volume),
            final(self).state.volume == spec_clamp_volume(volume as int),
            res.0 is Ok,
            res.1@ == seq![
                PlaybackEvent::VolumeChanged(spec_clamp_volume(volume as int) as u32),
            ],
    {
        let clamped: u32 = if volume < 0 {
            0
        } else if volume > VOLUME_SCALE as i64 {
            VOLUME_SCALE
        } else {
            volume as u32
        };
        self.state.volume = clamped;
        let mut events: Vec<PlaybackEvent> = Vec::new();
        events.push(PlaybackEvent::VolumeChanged(clamped));
        proof {
            assert(events@ =~= seq![PlaybackEvent::VolumeChanged(clamped)]);
        }
        (Ok(()), events)
    }

    /// Seeking is a permanent limitation of the output primitive: every
    /// request fails with the same error and nothing changes.
    pub fn handle_seek(&self, position: u64) -> (r: Result<(), AppError>)
        ensures
            r matches Err(e) && e matches AppError::Playback(m) && m@
                == "Seeking is not supported in the current rodio version"@,
    {
        let _ = position;
        Err(
            AppError::Playback(
                String::from_str("Seeking is not supported in the current rodio version"),
            ),
        )
    }

    /// Advance the position by the elapsed wall-clock time on one
    /// periodic tick, reporting movement of at least half a second and
    /// finishing the track on overshoot.
    pub fn handle_tick(&mut self, elapsed: u64, sink_paused: bool) -> (events: Vec<PlaybackEvent>)
        requires
            old(self).wf(),
        ensures
            final(self).wf(),
            *final(self) == tick_step(*old(self), elapsed, sink_paused).0,
            events@ == tick_step(*old(self), elapsed, sink_paused).1,
    {
        let mut events: Vec<PlaybackEvent> = Vec::new();
        if self.has_sink && self.state.is_playing && !sink_paused && self.baseline_set {
            let new_pos: u64 = if self.state.current_time <= u64::MAX - elapsed {
                self.state.current_time + elapsed
            } else {
                u64::MAX
            };
            if new_pos <= self.state.duration {
                self.state.current_time = new_pos;
                let moved: u64 = if new_pos >= self.last_emitted {
                    new_pos - self.last_emitted
                } else {
                    self.last_emitted - new_pos
                };
                if moved >= POSITION_EPSILON_MS {
                    self.last_emitted = new_pos;
                    events.push(PlaybackEvent::PositionChanged(new_pos));
                    proof {
                        assert(events@ =~= seq![PlaybackEvent::PositionChanged(new_pos)]);
                    }
                }
            } else {
                self.state.current_time = self.state.duration;
                self.state.is_playing = false;
                self.baseline_set = false;
                events.push(PlaybackEvent::TrackFinished);
                proof {
                    assert(events@ =~= seq![PlaybackEvent::TrackFinished]);
                }
            }
        }
        events
    }

    /// A copy of the shared snapshot, as the façade reads it.
    pub fn get_playback_state(&self) -> (r: PlaybackState)
        ensures
            crate::models::state_like(self.state, r),
    {
        self.state.clone()
    }

    /// Whether a track is currently playing.
    pub fn is_playing(&self) -> (r: bool)
        ensures
            r == self.state.is_playing,
    {
        self.state.is_playing
    }

    /// Whether playback is finished: nothing playing and no track
    /// loaded.
    pub fn is_finished(&self) -> (r: bool)
        ensures
            r == (!self.state.is_playing && self.state.current_track is None),
    {
        !self.state.is_playing && match &self.state.current_track {
            Some(_) => false,
            None => true,
        }
    }

    /// A copy of the current track, if one is loaded.
    pub fn current_track(&self) -> (r: Option<Track>)
        ensures
            match self.state.current_track {
                Some(t) => r matches Some(c) && track_like(t, c),
                None => r is None,
            },
    {
        match &self.state.current_track {
            Some(t) => Some(t.clone()),
            None => None,
        }
    }
}

} // verus!
