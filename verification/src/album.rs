use vstd::prelude::*;

use crate::clock::Timestamp;
use crate::metadata::{isrc_check, mcn_check, CdText, Mcn};
use crate::text::{decimal, push_char, push_decimal, push_str};
use crate::time::{Duration, MAX_NANOS};
use crate::track::{
    format_duration_ms, ms_text, track_checkable, track_validated, Track, TrackValidationError,
};

verus! {

/// Maximum number of tracks on a Red Book CD.
pub const MAX_TRACKS: usize = 99;

/// Maximum duration of a Red Book CD, in seconds (79 minutes, 57 seconds).
pub const MAX_DURATION_SECS: u64 = 4797;

/// Maximum duration of a Red Book CD (79 minutes, 57 seconds).
pub fn max_duration() -> (d: Duration)
    ensures
        d@ == 4_797_000_000_000,
{
    Duration::from_secs(MAX_DURATION_SECS)
}

/// `t` with its number replaced by `n`.
pub open spec fn with_number(t: Track, n: u8) -> Track {
    Track { number: n, ..t }
}

/// The number the track at position `i` (0-based) carries: `i + 1`, kept to a byte
/// as the numbering code's `as u8` does.
pub open spec fn position_number(i: int) -> u8 {
    ((i + 1) % 256) as u8
}

/// `s` with each track numbered after its position.
pub open spec fn renumbered(s: Seq<Track>) -> Seq<Track> {
    Seq::new(s.len(), |i: int| with_number(s[i], position_number(i)))
}

/// Whether each track of `s` is numbered after its position.
pub open spec fn numbered(s: Seq<Track>) -> bool {
    forall|i: int| 0 <= i < s.len() ==> #[trigger] s[i].number == position_number(i)
}

/// The nanoseconds of the first `k` tracks of `s`, gaps included.
pub open spec fn total_nanos(s: Seq<Track>, k: int) -> nat
    decreases k,
{
    if k <= 0 {
        0
    } else {
        total_nanos(s, k - 1) + s[k - 1].duration@ + s[k - 1].pregap@ + s[k - 1].postgap@
    }
}

/// The nanoseconds of all tracks of `s`, gaps included.
pub open spec fn album_nanos(s: Seq<Track>) -> nat {
    total_nanos(s, s.len() as int)
}

/// Whether track `t` passes validation.
pub open spec fn track_ok(t: Track) -> bool {
    &&& 1 <= t.number <= 99
    &&& t.duration@ >= 4_000_000_000
    &&& !(t.isrc matches Some(i) && isrc_check(i@) is Err)
}

/// Errors found when validating an album.
#[derive(Debug)]
pub enum AlbumValidationError {
    /// The album has no tracks.
    NoTracks,
    /// The album has more tracks than a CD can hold.
    TooManyTracks { count: usize, max: usize },
    /// The album plays longer than a CD can hold.
    TooLong { duration: Duration, max: Duration },
    /// The catalog number is malformed.
    InvalidCatalog(String),
    /// Track 1 starts with too short a pregap.
    Track1PregapTooShort { pregap: Duration, minimum: Duration },
    /// A track failed validation.
    TrackError(TrackValidationError),
}

/// Represents a complete album/CD project.
#[derive(Debug)]
pub struct Album {
    /// Album title
    pub title: String,
    /// Album performer/artist
    pub performer: String,
    /// Album songwriter
    pub songwriter: Option<String>,
    /// Media Catalog Number (UPC/EAN)
    pub catalog: Option<Mcn>,
    /// CD-TEXT metadata
    pub cd_text: CdText,
    /// Tracks in order
    pub tracks: Vec<Track>,
    /// When the project was created
    pub created_at: Timestamp,
    /// When the project was last modified
    pub modified_at: Timestamp,
}

/// Whether `r` is what validating album `a` gives: the first failed check among
/// the track count (1..=99), the total duration (79:57), the catalog number, each
/// track in order, and track 1's pregap (2 s).
pub open spec fn album_validated(a: &Album, r: Result<(), AlbumValidationError>) -> bool {
    let s = a.tracks@;
    let n = s.len();
    if n == 0 {
        r matches Err(AlbumValidationError::NoTracks)
    } else if n > 99 {
        r matches Err(AlbumValidationError::TooManyTracks { count, max }) && count == n && max
            == 99
    } else if album_nanos(s) > 4_797_000_000_000 {
        r matches Err(AlbumValidationError::TooLong { duration, max }) && duration@ == album_nanos(
            s,
        ) && max@ == 4_797_000_000_000
    } else if a.catalog matches Some(m) && mcn_check(m@) is Err {
        r matches Err(AlbumValidationError::InvalidCatalog(e)) && e@ == mcn_check(
            a.catalog->Some_0@,
        )->Err_0
    } else if exists|k: int| 0 <= k < n && !track_ok(#[trigger] s[k]) {
        r matches Err(AlbumValidationError::TrackError(e)) && exists|k: int|
            0 <= k < n && !track_ok(#[trigger] s[k]) && (forall|j: int|
                0 <= j < k ==> track_ok(#[trigger] s[j])) && track_validated(&s[k], Err(e))
    } else if s[0].pregap@ < 2_000_000_000 {
        r matches Err(AlbumValidationError::Track1PregapTooShort { pregap, minimum }) && pregap
            == s[0].pregap && minimum@ == 2_000_000_000
    } else {
        r is Ok
    }
}

/// A track's validation succeeds exactly when the track is fine.
proof fn lemma_track_validated_ok(t: &Track, r: Result<(), TrackValidationError>)
    requires
        track_validated(t, r),
    ensures
        r is Ok <==> track_ok(*t),
{
}

/// The running total of durations never shrinks.
proof fn lemma_total_monotone(s: Seq<Track>, j: int, k: int)
    requires
        0 <= j <= k <= s.len(),
    ensures
        total_nanos(s, j) <= total_nanos(s, k),
    decreases k - j,
{
    if j < k {
        lemma_total_monotone(s, j, k - 1);
    }
}

/// Renumbering leaves the tracks numbered after their positions.
proof fn lemma_renumbered_numbered(s: Seq<Track>)
    ensures
        numbered(renumbered(s)),
        renumbered(s).len() == s.len(),
{
}

/// The summary's songwriter line, if the album has a songwriter.
pub open spec fn songwriter_line(a: &Album) -> Seq<char> {
    match a.songwriter {
        Some(w) => "Songwriter: "@ + w@ + seq!['\n'],
        None => Seq::empty(),
    }
}

/// The summary's catalog line, if the album has a catalog number.
pub open spec fn catalog_line(a: &Album) -> Seq<char> {
    match a.catalog {
        Some(c) => "Catalog: "@ + c@ + seq!['\n'],
        None => Seq::empty(),
    }
}

/// The album summary: title, artist, songwriter and catalog number when present,
/// track count and total duration, one per line.
pub open spec fn summary_text(a: &Album) -> Seq<char> {
    "Album: "@ + a.title@ + seq!['\n'] + "Artist: "@ + a.performer@ + seq!['\n']
        + songwriter_line(a) + catalog_line(a) + "Tracks: "@ + decimal(a.tracks@.len())
        + seq!['\n'] + "Total: "@ + ms_text(album_nanos(a.tracks@) / 1_000_000_000) + seq!['\n']
}

impl Album {
    /// Create a new album with the given title and performer, created and
    /// modified at `now`.
    pub fn new(title: String, performer: String, now: Timestamp) -> (a: Album)
        ensures
            a.title == title,
            a.performer == performer,
            a.songwriter is None,
            a.catalog is None,
            a.cd_text.spec_is_empty(),
            a.tracks@.len() == 0,
            a.created_at == now,
            a.modified_at == now,
    {
        Album {
            title,
            performer,
            songwriter: None,
            catalog: None,
            cd_text: CdText::new(),
            tracks: Vec::new(),
            created_at: now,
            modified_at: now,
        }
    }

    /// Add a track to the album, numbering it after the tracks already there;
    /// the album is modified at `now`.
    pub fn add_track(&mut self, track: Track, now: Timestamp)
        ensures
            final(self).modified_at == now,
            final(self).tracks@ == old(self).tracks@.push(
                with_number(track, position_number(old(self).tracks@.len() as int)),
            ),
            numbered(old(self).tracks@) ==> numbered(final(self).tracks@),
            final(self).title == old(self).title,
            final(self).performer == old(self).performer,
            final(self).songwriter == old(self).songwriter,
            final(self).catalog == old(self).catalog,
            final(self).created_at == old(self).created_at,
            final(self).cd_text == old(self).cd_text,
    {
        let mut track = track;
        let n = self.tracks.len();
        track.number = (((n % 256) as u64 + 1) % 256) as u8;
        self.tracks.push(track);
        self.modified_at = now;
        proof {
            let s = final(self).tracks@;
            assert forall|i: int| 0 <= i < s.len() && numbered(old(self).tracks@) implies #[trigger] s[i].number
                == position_number(i) by {
                if i < n {
                    assert(s[i] == old(self).tracks@[i]);
                }
            }
        }
    }

    /// Remove a track by index (0-based), renumbering the rest; a removal
    /// modifies the album at `now`.
    pub fn remove_track(&mut self, index: usize, now: Timestamp) -> (r: Option<Track>)
        ensures
            final(self).modified_at == if index < old(self).tracks@.len() {
                now
            } else {
                old(self).modified_at
            },
            index < old(self).tracks@.len() ==> r == Some(old(self).tracks@[index as int])
                && final(self).tracks@ == renumbered(old(self).tracks@.remove(index as int)),
            index >= old(self).tracks@.len() ==> r is None && final(self).tracks@ == old(
                self,
            ).tracks@,
            index < old(self).tracks@.len() ==> numbered(final(self).tracks@),
            final(self).title == old(self).title,
            final(self).performer == old(self).performer,
            final(self).songwriter == old(self).songwriter,
            final(self).catalog == old(self).catalog,
            final(self).created_at == old(self).created_at,
            final(self).cd_text == old(self).cd_text,
    {
        if index < self.tracks.len() {
            let track = self.tracks.remove(index);
            self.renumber_tracks();
            self.modified_at = now;
            proof {
                lemma_renumbered_numbered(old(self).tracks@.remove(index as int));
            }
            Some(track)
        } else {
            None
        }
    }

    /// Move a track from one position to another (both 0-based), renumbering all;
    /// a move modifies the album at `now`.
    pub fn move_track(&mut self, from: usize, to: usize, now: Timestamp) -> (moved: bool)
        ensures
            final(self).modified_at == if moved {
                now
            } else {
                old(self).modified_at
            },
            moved == (from < old(self).tracks@.len() && to < old(self).tracks@.len()),
            moved ==> final(self).tracks@ == renumbered(
                moved_track(old(self).tracks@, from as int, to as int),
            ),
            moved ==> numbered(final(self).tracks@),
            !moved ==> final(self).tracks@ == old(self).tracks@,
            final(self).title == old(self).title,
            final(self).performer == old(self).performer,
            final(self).songwriter == old(self).songwriter,
            final(self).catalog == old(self).catalog,
            final(self).created_at == old(self).created_at,
            final(self).cd_text == old(self).cd_text,
    {
        if from >= self.tracks.len() || to >= self.tracks.len() {
            return false;
        }
        let track = self.tracks.remove(from);
        self.tracks.insert(to, track);
        self.renumber_tracks();
        self.modified_at = now;
        proof {
            lemma_renumbered_numbered(moved_track(old(self).tracks@, from as int, to as int));
        }
        true
    }

    /// Get a track by number (1-based): the track at position `number - 1`, or at
    /// position 0 for number 0.
    pub fn get_track(&self, number: u8) -> (r: Option<&Track>)
        ensures
            ({
                let i = if number == 0 {
                    0
                } else {
                    number - 1
                };
                if i < self.tracks@.len() {
                    r == Some(&self.tracks@[i])
                } else {
                    r is None
                }
            }),
    {
        let i: usize = if number == 0 {
            0
        } else {
            (number - 1) as usize
        };
        if i < self.tracks.len() {
            Some(&self.tracks[i])
        } else {
            None
        }
    }

    /// Whether a track with `number` (1-based, 0 taken as 1) exists for `get_track_mut`.
    pub open spec fn has_track_number(&self, number: u8) -> bool {
        (if number == 0 {
            0
        } else {
            number - 1
        }) < self.tracks@.len()
    }

    /// The position `get_track_mut` looks at for `number`.
    pub open spec fn track_position(number: u8) -> int {
        if number == 0 {
            0
        } else {
            number - 1
        }
    }

    /// Get a mutable track by number (1-based): the track at position
    /// `number - 1` (position 0 for number 0), if there is one.
    pub fn get_track_mut(&mut self, number: u8) -> (r: Option<&mut Track>)
        ensures
            old(self).has_track_number(number) ==> (r matches Some(t) && *t == old(self).tracks@[Self::track_position(number)]
                && final(self).tracks@ == old(self).tracks@.update(
                Self::track_position(number),
                *final(t),
            )),
            !old(self).has_track_number(number) ==> r is None && final(self).tracks@ == old(self).tracks@,
            final(self).title == old(self).title,
            final(self).performer == old(self).performer,
            final(self).songwriter == old(self).songwriter,
            final(self).catalog == old(self).catalog,
            final(self).created_at == old(self).created_at,
            final(self).cd_text == old(self).cd_text,
            final(self).modified_at == old(self).modified_at,
    {
        let i: usize = if number == 0 {
            0
        } else {
            (number - 1) as usize
        };
        if i < self.tracks.len() {
            Some(&mut self.tracks[i])
        } else {
            None
        }
    }

    /// Renumber all tracks after their positions.
    fn renumber_tracks(&mut self)
        ensures
            final(self).tracks@ == renumbered(old(self).tracks@),
            final(self).title == old(self).title,
            final(self).performer == old(self).performer,
            final(self).songwriter == old(self).songwriter,
            final(self).catalog == old(self).catalog,
            final(self).created_at == old(self).created_at,
            final(self).cd_text == old(self).cd_text,
            final(self).modified_at == old(self).modified_at,
    {
        let n = self.tracks.len();
        let mut i: usize = 0;
        while i < n
            invariant
                n == old(self).tracks@.len(),
                self.tracks@.len() == n,
                i <= n,
                forall|j: int| 0 <= j < i ==> self.tracks@[j] == with_number(
                    old(self).tracks@[j],
                    position_number(j),
                ),
                forall|j: int| i <= j < n ==> self.tracks@[j] == old(self).tracks@[j],
                self.title == old(self).title,
                self.performer == old(self).performer,
                self.songwriter == old(self).songwriter,
                self.catalog == old(self).catalog,
                self.created_at == old(self).created_at,
                self.cd_text == old(self).cd_text,
                self.modified_at == old(self).modified_at,
            decreases n - i,
        {
            self.tracks[i].number = ((i as u64 + 1) % 256) as u8;
            i = i + 1;
        }
        assert(self.tracks@ =~= renumbered(old(self).tracks@));
    }

    /// Calculate total duration of all tracks including gaps.
    pub fn total_duration(&self) -> (d: Duration)
        requires
            album_nanos(self.tracks@) <= MAX_NANOS,
        ensures
            d@ == album_nanos(self.tracks@),
    {
        let n = self.tracks.len();
        let mut total = Duration::zero();
        let mut i: usize = 0;
        while i < n
            invariant
                n == self.tracks@.len(),
                i <= n,
                album_nanos(self.tracks@) <= MAX_NANOS,
                total@ == total_nanos(self.tracks@, i as int),
            decreases n - i,
        {
            proof {
                lemma_total_monotone(self.tracks@, i + 1, n as int);
            }
            let t = &self.tracks[i];
            let one = t.duration.plus(t.pregap).plus(t.postgap);
            total = total.plus(one);
            i = i + 1;
        }
        total
    }

    /// The total duration of all tracks including gaps, or `None` where it does
    /// not fit in a `Duration` (where `total_duration` cannot be called).
    pub fn checked_total_duration(&self) -> (r: Option<Duration>)
        ensures
            r is Some <==> album_nanos(self.tracks@) <= MAX_NANOS,
            r matches Some(d) ==> d@ == album_nanos(self.tracks@),
    {
        let n = self.tracks.len();
        let mut total = Duration::zero();
        let mut i: usize = 0;
        while i < n
            invariant
                n == self.tracks@.len(),
                i <= n,
                total@ == total_nanos(self.tracks@, i as int),
                total@ <= MAX_NANOS,
            decreases n - i,
        {
            proof {
                lemma_total_monotone(self.tracks@, i + 1, n as int);
            }
            let t = &self.tracks[i];
            let with_pregap = match t.duration.checked_add(t.pregap) {
                Some(d) => d,
                None => {
                    return None;
                },
            };
            let one = match with_pregap.checked_add(t.postgap) {
                Some(d) => d,
                None => {
                    return None;
                },
            };
            total = match total.checked_add(one) {
                Some(d) => d,
                None => {
                    return None;
                },
            };
            i = i + 1;
        }
        Some(total)
    }

    /// Whether every track's ISRC, if any, can be checked without cutting a
    /// character (as `validate` needs).
    pub fn tracks_checkable(&self) -> (b: bool)
        ensures
            b == forall|i: int| 0 <= i < self.tracks@.len() ==> track_checkable(#[trigger] &self.tracks@[i]),
    {
        let mut i: usize = 0;
        while i < self.tracks.len()
            invariant
                i <= self.tracks@.len(),
                forall|j: int| 0 <= j < i ==> track_checkable(#[trigger] &self.tracks@[j]),
            decreases self.tracks@.len() - i,
        {
            match &self.tracks[i].isrc {
                Some(code) => {
                    if !code.is_checkable() {
                        assert(!track_checkable(&self.tracks@[i as int]));
                        return false;
                    }
                },
                None => {},
            }
            i = i + 1;
        }
        true
    }

    /// Get number of tracks.
    pub fn track_count(&self) -> (n: usize)
        ensures
            n == self.tracks@.len(),
    {
        self.tracks.len()
    }

    /// Format total duration as M:SS.
    pub fn format_duration(&self) -> (s: String)
        requires
            album_nanos(self.tracks@) <= MAX_NANOS,
        ensures
            s@ == ms_text(album_nanos(self.tracks@) / 1_000_000_000),
    {
        format_duration_ms(self.total_duration())
    }

    /// Validate the album against Red Book specifications.
    pub fn validate(&self) -> (r: Result<(), AlbumValidationError>)
        requires
            album_nanos(self.tracks@) <= MAX_NANOS,
            forall|i: int| 0 <= i < self.tracks@.len() ==> track_checkable(#[trigger] &self.tracks@[i]),
        ensures
            album_validated(self, r),
    {
        let n = self.tracks.len();
        if n == 0 {
            return Err(AlbumValidationError::NoTracks);
        }
        if n > MAX_TRACKS {
            return Err(AlbumValidationError::TooManyTracks { count: n, max: MAX_TRACKS });
        }
        let total = self.total_duration();
        let max = max_duration();
        if max.lt(&total) {
            return Err(AlbumValidationError::TooLong { duration: total, max });
        }
        if let Some(mcn) = &self.catalog {
            match mcn.validate() {
                Ok(()) => {},
                Err(e) => {
                    return Err(AlbumValidationError::InvalidCatalog(e));
                },
            }
        }
        let mut i: usize = 0;
        while i < n
            invariant
                n == self.tracks@.len(),
                0 < n <= 99,
                i <= n,
                album_nanos(self.tracks@) <= 4_797_000_000_000,
                !(self.catalog matches Some(m) && mcn_check(m@) is Err),
                forall|j: int| 0 <= j < n ==> track_checkable(#[trigger] &self.tracks@[j]),
                forall|j: int| 0 <= j < i ==> track_ok(#[trigger] self.tracks@[j]),
            decreases n - i,
        {
            let r = self.tracks[i].validate();
            proof {
                lemma_track_validated_ok(&self.tracks@[i as int], r);
            }
            match r {
                Ok(()) => {},
                Err(e) => {
                    proof {
                        let s = self.tracks@;
                        assert(!track_ok(s[i as int]));
                        assert(track_validated(&s[i as int], Err(e)));
                        assert(0 <= i < n && !track_ok(s[i as int]) && (forall|j: int|
                            0 <= j < i ==> track_ok(#[trigger] s[j])) && track_validated(
                            &s[i as int],
                            Err(e),
                        ));
                    }
                    return Err(AlbumValidationError::TrackError(e));
                },
            }
            i = i + 1;
        }
        let first = &self.tracks[0];
        let minimum = Duration::from_secs(2);
        if first.pregap.lt(&minimum) {
            return Err(
                AlbumValidationError::Track1PregapTooShort { pregap: first.pregap, minimum },
            );
        }
        Ok(())
    }

    /// A summary of the album: title, artist, songwriter and catalog number when
    /// present, track count and total duration, one per line.
    pub fn display_summary(&self) -> (s: String)
        requires
            album_nanos(self.tracks@) <= MAX_NANOS,
        ensures
            s@ == summary_text(self),
    {
        let mut s = String::new();
        push_str(&mut s, "Album: ");
        push_str(&mut s, self.title.as_str());
        push_char(&mut s, '\n');
        push_str(&mut s, "Artist: ");
        push_str(&mut s, self.performer.as_str());
        push_char(&mut s, '\n');
        let ghost after_artist = s@;
        if let Some(songwriter) = &self.songwriter {
            push_str(&mut s, "Songwriter: ");
            push_str(&mut s, songwriter.as_str());
            push_char(&mut s, '\n');
        }
        let ghost after_songwriter = s@;
        if let Some(catalog) = &self.catalog {
            push_str(&mut s, "Catalog: ");
            push_str(&mut s, catalog.as_str());
            push_char(&mut s, '\n');
        }
        push_str(&mut s, "Tracks: ");
        push_decimal(&mut s, self.track_count() as u64);
        push_char(&mut s, '\n');
        push_str(&mut s, "Total: ");
        let total = self.format_duration();
        push_str(&mut s, total.as_str());
        push_char(&mut s, '\n');
        assert(after_songwriter =~= after_artist + songwriter_line(self));
        assert(s@ =~= summary_text(self));
        s
    }
}

/// The number of tracks in `s` for which `p` holds.
pub open spec fn count_tracks(s: Seq<Track>, p: spec_fn(Track) -> bool) -> nat
    decreases s.len(),
{
    if s.len() == 0 {
        0
    } else {
        count_tracks(s.drop_last(), p) + if p(s.last()) {
            1nat
        } else {
            0nat
        }
    }
}

/// Whether a track plays at least the Red Book minimum of four seconds.
pub open spec fn long_enough(t: Track) -> bool {
    t.duration@ >= 4_000_000_000
}

/// Whether a track carries an ISRC code.
pub open spec fn has_isrc(t: Track) -> bool {
    t.isrc is Some
}

/// Where `p` holds of every track, it is counted for every track.
proof fn lemma_count_all(s: Seq<Track>, p: spec_fn(Track) -> bool)
    requires
        forall|i: int| 0 <= i < s.len() ==> p(#[trigger] s[i]),
    ensures
        count_tracks(s, p) == s.len(),
    decreases s.len(),
{
    if s.len() > 0 {
        assert(p(s[s.len() - 1]));
        lemma_count_all(s.drop_last(), p);
    }
}

/// Every track of an album that passes validation plays at least four seconds,
/// so the count of such tracks is the track count.
pub proof fn law_valid_album_tracks_long_enough(a: &Album, r: Result<(), AlbumValidationError>)
    requires
        album_validated(a, r),
        r is Ok,
    ensures
        count_tracks(a.tracks@, |t: Track| long_enough(t)) == a.tracks@.len(),
{
    let s = a.tracks@;
    assert forall|i: int| 0 <= i < s.len() implies (|t: Track| long_enough(t))(#[trigger] s[i]) by {
        assert(track_ok(s[i]));
    }
    lemma_count_all(s, |t: Track| long_enough(t));
}

impl Album {
    /// The number of tracks that play at least the Red Book minimum of four seconds.
    pub fn count_long_enough(&self) -> (n: usize)
        ensures
            n == count_tracks(self.tracks@, |t: Track| long_enough(t)),
    {
        let min = crate::track::min_track_duration();
        let mut n: usize = 0;
        let mut i: usize = 0;
        while i < self.tracks.len()
            invariant
                i <= self.tracks@.len(),
                min@ == 4_000_000_000,
                n == count_tracks(self.tracks@.take(i as int), |t: Track| long_enough(t)),
                n <= i,
            decreases self.tracks@.len() - i,
        {
            assert(self.tracks@.take(i + 1).drop_last() =~= self.tracks@.take(i as int));
            if !self.tracks[i].duration.lt(&min) {
                n = n + 1;
            }
            i = i + 1;
        }
        assert(self.tracks@.take(i as int) =~= self.tracks@);
        n
    }

    /// The number of tracks that carry an ISRC code.
    pub fn count_with_isrc(&self) -> (n: usize)
        ensures
            n == count_tracks(self.tracks@, |t: Track| has_isrc(t)),
    {
        let mut n: usize = 0;
        let mut i: usize = 0;
        while i < self.tracks.len()
            invariant
                i <= self.tracks@.len(),
                n == count_tracks(self.tracks@.take(i as int), |t: Track| has_isrc(t)),
                n <= i,
            decreases self.tracks@.len() - i,
        {
            assert(self.tracks@.take(i + 1).drop_last() =~= self.tracks@.take(i as int));
            if self.tracks[i].isrc.is_some() {
                n = n + 1;
            }
            i = i + 1;
        }
        assert(self.tracks@.take(i as int) =~= self.tracks@);
        n
    }
}

impl Album {
    /// The album a new project starts with: "Untitled Album" by "Unknown Artist",
    /// created at `now`.
    pub fn untitled(now: Timestamp) -> (a: Album)
        ensures
            a.title@ == "Untitled Album"@,
            a.performer@ == "Unknown Artist"@,
            a.songwriter is None,
            a.catalog is None,
            a.tracks@.len() == 0,
            a.created_at == now,
            a.modified_at == now,
    {
        Album::new(String::from_str("Untitled Album"), String::from_str("Unknown Artist"), now)
    }
}

} // verus!

verus! {

/// `s` with the track at `from` taken out and put back at `to`.
pub open spec fn moved_track(s: Seq<Track>, from: int, to: int) -> Seq<Track> {
    s.remove(from).insert(to, s[from])
}

/// Renumbering does not look at the numbers the tracks had.
proof fn lemma_renumbered_ignores_numbers(a: Seq<Track>, b: Seq<Track>)
    requires
        a.len() == b.len(),
        forall|i: int| 0 <= i < a.len() ==> with_number(a[i], 0) == with_number(b[i], 0),
    ensures
        renumbered(a) == renumbered(b),
{
    assert forall|i: int| 0 <= i < a.len() implies #[trigger] renumbered(a)[i] == renumbered(b)[i] by {
        assert(with_number(a[i], 0) == with_number(b[i], 0));
    }
    assert(renumbered(a) =~= renumbered(b));
}

/// Tracks already numbered after their positions are left as they are by renumbering.
proof fn lemma_renumbered_numbered_id(s: Seq<Track>)
    requires
        numbered(s),
    ensures
        renumbered(s) == s,
{
    assert forall|i: int| 0 <= i < s.len() implies #[trigger] renumbered(s)[i] == s[i] by {
        assert(s[i].number == position_number(i));
    }
    assert(renumbered(s) =~= s);
}

/// Moving a track and moving it back gives the order it had.
proof fn lemma_moved_back(s: Seq<Track>, from: int, to: int)
    requires
        0 <= from < s.len(),
        0 <= to < s.len(),
    ensures
        moved_track(moved_track(s, from, to), to, from) == s,
{
    let m = moved_track(s, from, to);
    assert(m[to] == s[from]);
    assert(m.remove(to) =~= s.remove(from));
    assert(s.remove(from).insert(from, s[from]) =~= s);
}

/// Moving a track from `from` to `to` and then from `to` back to `from` gives back
/// the album's tracks as they were, when they were numbered after their positions.
pub proof fn law_move_track_undone(s: Seq<Track>, from: int, to: int)
    requires
        numbered(s),
        0 <= from < s.len(),
        0 <= to < s.len(),
    ensures
        renumbered(moved_track(renumbered(moved_track(s, from, to)), to, from)) == s,
{
    let m = moved_track(s, from, to);
    let r = renumbered(m);
    assert(r[to] == with_number(m[to], position_number(to)));
    assert forall|i: int| 0 <= i < s.len() implies with_number(#[trigger] moved_track(r, to, from)[i], 0)
        == with_number(moved_track(m, to, from)[i], 0) by {
        if i < from {
            if i < to {
                assert(moved_track(r, to, from)[i] == r[i]);
                assert(moved_track(m, to, from)[i] == m[i]);
            } else {
                assert(moved_track(r, to, from)[i] == r[i + 1]);
                assert(moved_track(m, to, from)[i] == m[i + 1]);
            }
        } else if i == from {
            assert(moved_track(r, to, from)[i] == r[to]);
            assert(moved_track(m, to, from)[i] == m[to]);
        } else {
            if i <= to {
                assert(moved_track(r, to, from)[i] == r[i - 1]);
                assert(moved_track(m, to, from)[i] == m[i - 1]);
            } else {
                assert(moved_track(r, to, from)[i] == r[i]);
                assert(moved_track(m, to, from)[i] == m[i]);
            }
        }
    }
    lemma_renumbered_ignores_numbers(moved_track(r, to, from), moved_track(m, to, from));
    lemma_moved_back(s, from, to);
    lemma_renumbered_numbered_id(s);
}

} // verus!

verus! {

/// The nanoseconds a track takes, gaps included.
pub open spec fn track_nanos(t: Track) -> nat {
    t.duration@ + t.pregap@ + t.postgap@
}

/// The running total of the first `k` tracks looks only at those tracks' spans.
proof fn lemma_total_same_spans(s: Seq<Track>, t: Seq<Track>, k: int)
    requires
        0 <= k <= s.len(),
        k <= t.len(),
        forall|j: int| 0 <= j < k ==> track_nanos(#[trigger] s[j]) == track_nanos(t[j]),
    ensures
        total_nanos(s, k) == total_nanos(t, k),
    decreases k,
{
    if k > 0 {
        assert(track_nanos(s[k - 1]) == track_nanos(t[k - 1]));
        lemma_total_same_spans(s, t, k - 1);
    }
}

/// Without the track at `i`, the running total past `i` lacks that track's span.
proof fn lemma_total_remove(s: Seq<Track>, i: int, k: int)
    requires
        0 <= i <= k < s.len(),
    ensures
        total_nanos(s.remove(i), k) + track_nanos(s[i]) == total_nanos(s, k + 1),
    decreases k - i,
{
    if k == i {
        lemma_total_same_spans(s.remove(i), s, i);
    } else {
        lemma_total_remove(s, i, k - 1);
        assert(s.remove(i)[k - 1] == s[k]);
    }
}

/// Adding a track to an album numbered after its positions and then removing
/// the last track gives back the tracks as they were, and hands back the added
/// track with its new number.
pub proof fn law_add_then_remove_last(s: Seq<Track>, t: Track)
    requires
        numbered(s),
    ensures
        ({
            let added = s.push(with_number(t, position_number(s.len() as int)));
            &&& renumbered(added.remove(s.len() as int)) == s
            &&& added[s.len() as int] == with_number(t, position_number(s.len() as int))
        }),
{
    let added = s.push(with_number(t, position_number(s.len() as int)));
    assert(added.remove(s.len() as int) =~= s);
    lemma_renumbered_numbered_id(s);
}

/// Adding a track adds its duration and gaps to the album's total.
pub proof fn law_add_track_total(s: Seq<Track>, t: Track, n: u8)
    ensures
        album_nanos(s.push(with_number(t, n))) == album_nanos(s) + track_nanos(t),
{
    let u = s.push(with_number(t, n));
    lemma_total_same_spans(u, s, s.len() as int);
    assert(u[s.len() as int] == with_number(t, n));
}

/// Renumbering tracks leaves the album's total as it is.
pub proof fn law_renumber_keeps_total(s: Seq<Track>)
    ensures
        album_nanos(renumbered(s)) == album_nanos(s),
{
    assert forall|j: int| 0 <= j < s.len() implies track_nanos(#[trigger] renumbered(s)[j])
        == track_nanos(s[j]) by {}
    lemma_total_same_spans(renumbered(s), s, s.len() as int);
}

/// Removing a track takes its duration and gaps off the album's total.
pub proof fn law_remove_track_total(s: Seq<Track>, i: int)
    requires
        0 <= i < s.len(),
    ensures
        album_nanos(renumbered(s.remove(i))) + track_nanos(s[i]) == album_nanos(s),
{
    law_renumber_keeps_total(s.remove(i));
    lemma_total_remove(s, i, s.len() - 1);
}

/// Moving a track leaves the album's total as it is.
pub proof fn law_move_track_keeps_total(s: Seq<Track>, from: int, to: int)
    requires
        0 <= from < s.len(),
        0 <= to < s.len(),
    ensures
        album_nanos(renumbered(moved_track(s, from, to))) == album_nanos(s),
{
    let r = s.remove(from);
    law_renumber_keeps_total(moved_track(s, from, to));
    lemma_total_remove(moved_track(s, from, to), to, s.len() - 1);
    assert(moved_track(s, from, to).remove(to) =~= r);
    lemma_total_remove(s, from, s.len() - 1);
    assert(moved_track(s, from, to)[to] == s[from]);
}

} // verus!
