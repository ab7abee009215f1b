use vstd::prelude::*;

use crate::metadata::{isrc_check, isrc_checkable, Isrc};
use crate::paths::{path_is_absolute, path_join, spec_path_is_absolute, spec_path_join};
use crate::text::{decimal, decimal2, push_char, push_decimal};
use crate::time::Duration;

verus! {

/// Red Book CD frame rate: 75 frames per second.
pub const FRAMES_PER_SECOND: u32 = 75;

/// Default pregap for track 1, in seconds (2 seconds as per Red Book spec).
pub const DEFAULT_TRACK1_PREGAP_SECS: u64 = 2;

/// Minimum track duration, in seconds (4 seconds as per Red Book spec).
pub const MIN_TRACK_DURATION_SECS: u64 = 4;

/// Default pregap for track 1 (2 seconds as per Red Book spec).
pub fn default_track1_pregap() -> (d: Duration)
    ensures
        d@ == 2_000_000_000,
{
    Duration::from_secs(DEFAULT_TRACK1_PREGAP_SECS)
}

/// Minimum track duration (4 seconds as per Red Book spec).
pub fn min_track_duration() -> (d: Duration)
    ensures
        d@ == 4_000_000_000,
{
    Duration::from_secs(MIN_TRACK_DURATION_SECS)
}

/// The shortest pregap a track may be given, in whole seconds: two for track 1
/// (as per Red Book spec), none for the others.
pub fn min_pregap_secs(number: u8) -> (secs: u64)
    ensures
        secs == if number == 1 {
            2u64
        } else {
            0u64
        },
{
    if number == 1 {
        DEFAULT_TRACK1_PREGAP_SECS
    } else {
        0
    }
}

/// The whole milliseconds of `d`, cut to their low 32 bits as the frame
/// computation does.
pub open spec fn millis_u32(d: Duration) -> nat {
    (d@ / 1_000_000) % 0x1_0000_0000
}

/// Whether converting `d` to frames stays within `u32`.
pub open spec fn frames_fit(d: Duration) -> bool {
    millis_u32(d) * 75 <= u32::MAX
}

/// The CD frames in `d`: its milliseconds (low 32 bits) times 75, divided by 1000.
pub open spec fn frames_of(d: Duration) -> nat {
    (millis_u32(d) * 75 / 1000) as nat
}

/// Convert Duration to CD frames.
pub fn duration_to_frames(duration: Duration) -> (f: u32)
    requires
        frames_fit(duration),
    ensures
        f == frames_of(duration),
{
    let total_millis = (duration.as_millis() % 0x1_0000_0000) as u32;
    (total_millis * FRAMES_PER_SECOND) / 1000
}

/// Convert CD frames to Duration.
pub fn frames_to_duration(frames: u32) -> (d: Duration)
    requires
        frames * 1000 <= u32::MAX,
    ensures
        d@ == (frames * 1000 / 75) * 1_000_000,
{
    let millis = (frames * 1000) / FRAMES_PER_SECOND;
    Duration::from_millis(millis as u64)
}

/// The `MM:SS:FF` text for `total` frames: minutes, seconds and frames, each
/// padded to two digits (minutes may take more).
pub open spec fn msf_text(total: nat) -> Seq<char> {
    let frames = total % 75;
    let seconds = (total / 75) % 60;
    let minutes = total / 75 / 60;
    decimal2(minutes) + seq![':'] + decimal2(seconds) + seq![':'] + decimal2(frames)
}

/// The `M:SS` text for `secs` whole seconds.
pub open spec fn ms_text(secs: nat) -> Seq<char> {
    decimal(secs / 60) + seq![':'] + decimal2(secs % 60)
}

/// Appends `n`, padded with a leading zero to at least two digits.
pub fn push_decimal2(s: &mut String, n: u64)
    ensures
        final(s)@ == old(s)@ + decimal2(n as nat),
{
    if n < 10 {
        push_char(s, '0');
    }
    push_decimal(s, n);
}

/// Format duration as MM:SS:FF (minutes:seconds:frames).
pub fn format_duration_msf(duration: Duration) -> (s: String)
    requires
        frames_fit(duration),
    ensures
        s@ == msf_text(frames_of(duration)),
{
    let total_frames = duration_to_frames(duration);
    let frames = total_frames % FRAMES_PER_SECOND;
    let total_seconds = total_frames / FRAMES_PER_SECOND;
    let seconds = total_seconds % 60;
    let minutes = total_seconds / 60;
    let mut s = String::new();
    push_decimal2(&mut s, minutes as u64);
    push_char(&mut s, ':');
    push_decimal2(&mut s, seconds as u64);
    push_char(&mut s, ':');
    push_decimal2(&mut s, frames as u64);
    s
}

/// Format duration as M:SS for display.
pub fn format_duration_ms(duration: Duration) -> (s: String)
    ensures
        s@ == ms_text(duration@ / 1_000_000_000),
{
    let total_seconds = duration.as_secs();
    let seconds = total_seconds % 60;
    let minutes = total_seconds / 60;
    let mut s = String::new();
    push_decimal(&mut s, minutes);
    push_char(&mut s, ':');
    push_decimal2(&mut s, seconds);
    s
}

/// Converting frames to a duration and back gives the frames again when their
/// number is a multiple of 3, and one frame less otherwise: 75 frames do not
/// divide 1000 milliseconds evenly.
pub proof fn lemma_frames_round_trip(f: u32)
    requires
        f * 1000 <= u32::MAX,
    ensures
        ({
            let millis = f * 1000 / 75;
            millis * 75 <= u32::MAX && millis * 75 / 1000 == if f % 3 == 0 {
                f as int
            } else {
                f - 1
            }
        }),
{
    let millis = f * 1000 / 75;
    assert(millis * 75 <= f * 1000) by (nonlinear_arith)
        requires
            millis == f * 1000 / 75,
    ;
    assert(millis * 75 / 1000 == if f % 3 == 0 {
        f as int
    } else {
        f - 1
    }) by (nonlinear_arith)
        requires
            millis == f * 1000 / 75,
            f >= 0,
    ;
}

/// Converting a duration to frames and back never gives a longer duration.
pub proof fn lemma_frames_never_lengthen(d: Duration)
    requires
        frames_fit(d),
        d@ / 1_000_000 < 0x1_0000_0000,
    ensures
        frames_of(d) * 1000 <= u32::MAX,
        (frames_of(d) * 1000 / 75) * 1_000_000 <= d@,
{
    let m = d@ / 1_000_000;
    let f = frames_of(d);
    assert(m % 0x1_0000_0000 == m);
    assert(f * 1000 / 75 <= m) by (nonlinear_arith)
        requires
            f == m * 75 / 1000,
            m >= 0,
    ;
    assert(m * 1_000_000 <= d@) by (nonlinear_arith)
        requires
            m == d@ / 1_000_000,
    ;
}

/// Errors found when validating a track.
#[derive(Debug)]
pub enum TrackValidationError {
    /// The track number is not in 1..=99.
    InvalidTrackNumber(u8),
    /// The track is shorter than the minimum.
    TrackTooShort { track: u8, duration: Duration, minimum: Duration },
    /// The track's ISRC is malformed.
    InvalidIsrc { track: u8, error: String },
}

/// Represents a single track on the CD.
#[derive(Debug)]
pub struct Track {
    /// Track number (1-99)
    pub number: u8,
    /// Track title
    pub title: String,
    /// Track performer (overrides album performer if set)
    pub performer: Option<String>,
    /// Track songwriter (overrides album songwriter if set)
    pub songwriter: Option<String>,
    /// ISRC code for this track
    pub isrc: Option<Isrc>,
    /// Path to the source WAV file
    pub source_file: String,
    /// Duration of the track audio
    pub duration: Duration,
    /// Gap before this track (silence); 2 seconds for track 1, 0 for others by default
    pub pregap: Duration,
    /// Gap after this track (silence)
    pub postgap: Duration,
    /// INDEX 00 position for hidden track/pause
    pub index00: Option<Duration>,
}

/// Whether the track's ISRC, if any, can be checked without cutting a character.
pub open spec fn track_checkable(t: &Track) -> bool {
    t.isrc matches Some(i) ==> isrc_checkable(i@)
}

/// Whether converting each of the track's spans to frames stays within `u32`.
pub open spec fn track_frames_fit(t: &Track) -> bool {
    frames_fit(t.pregap) && frames_fit(t.duration) && frames_fit(t.postgap)
}

/// The frames of the track with its gaps.
pub open spec fn track_total_frames(t: &Track) -> nat {
    frames_of(t.pregap) + frames_of(t.duration) + frames_of(t.postgap)
}

/// Whether `r` is what validating track `t` gives: the first failed check among
/// the track number (1..=99), the minimum duration (4 s) and the ISRC.
pub open spec fn track_validated(t: &Track, r: Result<(), TrackValidationError>) -> bool {
    if t.number == 0 || t.number > 99 {
        r matches Err(TrackValidationError::InvalidTrackNumber(n)) && n == t.number
    } else if t.duration@ < 4_000_000_000 {
        r matches Err(TrackValidationError::TrackTooShort { track, duration, minimum })
            && track == t.number && duration == t.duration && minimum@ == 4_000_000_000
    } else if t.isrc matches Some(i) && isrc_check(i@) is Err {
        r matches Err(TrackValidationError::InvalidIsrc { track, error }) && track == t.number
            && error@ == isrc_check(t.isrc->Some_0@)->Err_0
    } else {
        r is Ok
    }
}

impl Track {
    /// Create a new track with default settings.
    pub fn new(number: u8, title: String, source_file: String, duration: Duration) -> (t: Track)
        ensures
            t.number == number,
            t.title == title,
            t.performer is None,
            t.songwriter is None,
            t.isrc is None,
            t.source_file == source_file,
            t.duration == duration,
            t.pregap@ == if number == 1 {
                2_000_000_000nat
            } else {
                0nat
            },
            t.postgap@ == 0,
            t.index00 is None,
    {
        let pregap = if number == 1 {
            default_track1_pregap()
        } else {
            Duration::zero()
        };
        Track {
            number,
            title,
            performer: None,
            songwriter: None,
            isrc: None,
            source_file,
            duration,
            pregap,
            postgap: Duration::zero(),
            index00: None,
        }
    }

    /// Calculate the start time of this track in CD frames.
    pub fn start_frame(&self, previous_end_frame: u32) -> (f: u32)
        requires
            frames_fit(self.pregap),
            previous_end_frame + frames_of(self.pregap) <= u32::MAX,
        ensures
            f == previous_end_frame + frames_of(self.pregap),
    {
        previous_end_frame + duration_to_frames(self.pregap)
    }

    /// Calculate the end frame of this track.
    pub fn end_frame(&self, start_frame: u32) -> (f: u32)
        requires
            frames_fit(self.duration),
            start_frame + frames_of(self.duration) <= u32::MAX,
        ensures
            f == start_frame + frames_of(self.duration),
    {
        start_frame + duration_to_frames(self.duration)
    }

    /// Get total frames including pregap and postgap.
    pub fn total_frames(&self) -> (f: u32)
        requires
            track_frames_fit(self),
            track_total_frames(self) <= u32::MAX,
        ensures
            f == track_total_frames(self),
    {
        duration_to_frames(self.pregap) + duration_to_frames(self.duration) + duration_to_frames(
            self.postgap,
        )
    }

    /// Validate the track against Red Book specifications.
    pub fn validate(&self) -> (r: Result<(), TrackValidationError>)
        requires
            track_checkable(self),
        ensures
            track_validated(self, r),
    {
        if self.number == 0 || self.number > 99 {
            return Err(TrackValidationError::InvalidTrackNumber(self.number));
        }
        let minimum = min_track_duration();
        if self.duration.lt(&minimum) {
            return Err(
                TrackValidationError::TrackTooShort {
                    track: self.number,
                    duration: self.duration,
                    minimum,
                },
            );
        }
        if let Some(isrc) = &self.isrc {
            match isrc.validate() {
                Ok(()) => {},
                Err(e) => {
                    return Err(TrackValidationError::InvalidIsrc { track: self.number, error: e });
                },
            }
        }
        Ok(())
    }

    /// Format duration as MM:SS:FF (minutes:seconds:frames).
    pub fn format_duration(&self) -> (s: String)
        requires
            frames_fit(self.duration),
        ensures
            s@ == msf_text(frames_of(self.duration)),
    {
        format_duration_msf(self.duration)
    }

    /// Resolve the source file path relative to a project directory: an absolute
    /// path is kept as it is, a relative one is joined to the directory.
    pub fn resolve_source_file(&self, project_dir: &str) -> (p: String)
        ensures
            p@ == if spec_path_is_absolute(self.source_file@) {
                self.source_file@
            } else {
                spec_path_join(project_dir@, self.source_file@)
            },
    {
        if path_is_absolute(self.source_file.as_str()) {
            self.source_file.clone()
        } else {
            path_join(project_dir, self.source_file.as_str())
        }
    }
}

} // verus!
