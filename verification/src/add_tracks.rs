//! The steps of adding tracks from WAV files: which check comes next for a path
//! the user typed, the title and number a new track gets, when a file must be
//! converted first and where the converted copy goes. The caller performs each
//! action (prompts, file lookups, reading headers, converting) and hands back
//! what came of it as the next event.
use vstd::prelude::*;

use crate::album::{numbered, position_number, Album};
use crate::clock::Timestamp;
use crate::paths::{
    path_extension, path_file_stem, path_with_file_name, spec_path_extension, spec_path_file_stem,
    spec_path_with_file_name,
};
use crate::text::{decimal, push_decimal, push_str, string_views, trim, trimmed};
use crate::time::Duration;
use crate::title::{clean_track_title, track_title};
use crate::track::Track;
use crate::wav::{format_issue_texts, red_book_compliant, WavInfo};

verus! {

/// Where the add-tracks wizard stands.
#[derive(Debug, Clone, Copy, PartialEq, Eq, Structural)]
pub enum AddStage {
    /// Waiting for a path.
    Asking,
    /// Waiting to hear whether the file exists.
    Looking,
    /// Waiting for the file's WAV header.
    Reading,
    /// Waiting for the choice about a file that is not Red Book audio.
    Choosing,
    /// Waiting for the conversion to finish.
    Converting,
    /// Finished: every further event is ignored.
    Finished,
}

/// The add-tracks wizard's state: the stage, and the file being added with its
/// title and header.
#[derive(Debug)]
pub struct AddTracksWizard {
    /// Where the wizard stands
    pub stage: AddStage,
    /// The path of the file being added
    pub path: String,
    /// The title the file's track gets
    pub title: String,
    /// The file's WAV header, while a conversion is offered
    pub info: Option<WavInfo>,
}

/// What to do with a file that is not Red Book audio.
#[derive(Debug, Clone, Copy, PartialEq, Eq, Structural)]
pub enum NonCompliantChoice {
    /// Convert it and add the converted copy.
    Convert,
    /// Skip it.
    Skip,
    /// Stop adding tracks (also when the prompt was aborted).
    Abort,
}

/// What the caller reports back to the wizard.
#[derive(Debug)]
pub enum AddEvent {
    /// The path typed, or `None` when the prompt was aborted.
    PathEntered(Option<String>),
    /// Whether the file exists.
    Looked(bool),
    /// The file's WAV header, or why it could not be read.
    WavRead(Result<WavInfo, String>),
    /// The choice about a file that is not Red Book audio.
    ChoiceMade(NonCompliantChoice),
    /// The duration of the converted copy, or why converting or reading it failed.
    Converted(Result<Duration, String>),
}

/// What the wizard asks the caller to do next. Each report is followed by
/// asking for the next path.
#[derive(Debug)]
pub enum AddAction {
    /// Ask for the next path.
    AskPath,
    /// Look whether the file at this path exists.
    LookFor(String),
    /// Report that the file was not found.
    ReportNotFound(String),
    /// Report that the file is not a WAV file.
    ReportNotWav(String),
    /// Read the WAV header of the file at this path.
    ReadHeader(String),
    /// Report why the WAV header could not be read.
    ReportUnreadable(String),
    /// Report that a track with this title and duration was added.
    ReportAdded { title: String, duration: Duration },
    /// Report these format issues and ask whether to convert, skip or abort.
    OfferConversion(Vec<String>),
    /// Convert the file at `source`, whose header is `info`, to `output`.
    Convert { source: String, output: String, info: WavInfo },
    /// Report that the converted copy at `output` was added with this title and duration.
    ReportConvertedAdded { title: String, duration: Duration, output: String },
    /// Report why the conversion failed.
    ReportConversionFailed(String),
    /// Report how many tracks the album has and how long it plays; the wizard is done.
    Finish,
    /// The event does not belong to this stage: nothing to do.
    Ignore,
}

/// Whether a file extension is `wav` in any mix of upper and lower case.
pub open spec fn is_wav_extension(e: Seq<char>) -> bool {
    &&& e.len() == 3
    &&& (e[0] == 'w' || e[0] == 'W')
    &&& (e[1] == 'a' || e[1] == 'A')
    &&& (e[2] == 'v' || e[2] == 'V')
}

/// Whether the file at `path` is named as a WAV file.
pub open spec fn named_wav(path: Seq<char>) -> bool {
    spec_path_extension(path) matches Some(e) && is_wav_extension(e)
}

/// The title of a track made from the file at `path` on an album with `count`
/// tracks: the file name without its extension, cleaned up, or "Track n" for
/// the number the track gets when the path has no file name.
pub open spec fn file_title(path: Seq<char>, count: nat) -> Seq<char> {
    match spec_path_file_stem(path) {
        Some(stem) => track_title(stem),
        None => "Track "@ + decimal(count + 1),
    }
}

/// Where the converted copy of the file at `path` goes: beside it, named after
/// it (or "track") with "_converted.wav".
pub open spec fn converted_path(path: Seq<char>) -> Seq<char> {
    let stem = match spec_path_file_stem(path) {
        Some(s) => s,
        None => "track"@,
    };
    spec_path_with_file_name(path, stem + "_converted.wav"@)
}

/// Whether `t` is a track as `Track::new` makes it.
pub open spec fn fresh_track(t: Track, number: u8, title: Seq<char>, source: Seq<char>, duration: Duration) -> bool {
    &&& t.number == number
    &&& t.title@ == title
    &&& t.performer is None
    &&& t.songwriter is None
    &&& t.isrc is None
    &&& t.source_file@ == source
    &&& t.duration == duration
    &&& t.pregap@ == if number == 1 {
        2_000_000_000nat
    } else {
        0nat
    }
    &&& t.postgap@ == 0
    &&& t.index00 is None
}

/// Whether `new` is album `old` with a new track (title, source file and
/// duration as given) added at the end at `now`, numbered after its position.
pub open spec fn track_added(
    old: Album,
    new: Album,
    title: Seq<char>,
    source: Seq<char>,
    duration: Duration,
    now: Timestamp,
) -> bool {
    let n = old.tracks@.len();
    &&& new.tracks@.len() == n + 1
    &&& new.tracks@.take(n as int) == old.tracks@
    &&& fresh_track(new.tracks@[n as int], position_number(n as int), title, source, duration)
    &&& new.modified_at == now
    &&& new.title == old.title
    &&& new.performer == old.performer
    &&& new.songwriter == old.songwriter
    &&& new.catalog == old.catalog
    &&& new.created_at == old.created_at
    &&& new.cd_text == old.cd_text
}

impl AddTracksWizard {
    /// A wizard waiting for the first path.
    pub fn new() -> (w: AddTracksWizard)
        ensures
            w.stage == AddStage::Asking,
            w.path@.len() == 0,
            w.title@.len() == 0,
            w.info is None,
    {
        AddTracksWizard { stage: AddStage::Asking, path: String::new(), title: String::new(), info: None }
    }

    /// What holds of the wizard's state: the file's header is kept while a
    /// conversion is offered.
    pub open spec fn wf(&self) -> bool {
        self.stage is Choosing ==> self.info is Some
    }
}

/// Whether the wizard in state `s` goes, on event `e`, to state `n` with action
/// `a`, taking the album from `old` to `new` at `now`. A path is trimmed; an empty
/// one ends the wizard. The file must exist, be named `.wav` (in any case) and
/// have a readable header; Red Book audio is added as a track at once, other
/// audio may be converted (the converted copy is added), skipped, or end the
/// wizard. An event that does not belong to the stage changes nothing.
pub open spec fn add_transition(
    s: AddTracksWizard,
    old: Album,
    e: AddEvent,
    now: Timestamp,
    n: AddTracksWizard,
    new: Album,
    a: AddAction,
) -> bool {
    let count = old.tracks@.len();
    match (s.stage, e) {
        (AddStage::Asking, AddEvent::PathEntered(entered)) => new == old && match entered {
            Some(input) => if trim(input@).len() == 0 {
                n == AddTracksWizard { stage: AddStage::Finished, ..s } && a is Finish
            } else {
                n.stage == AddStage::Looking && n.path@ == trim(input@) && n.title == s.title && n.info
                    == s.info && (a matches AddAction::LookFor(p) && p@ == trim(input@))
            },
            None => n == AddTracksWizard { stage: AddStage::Finished, ..s } && a is Finish,
        },
        (AddStage::Looking, AddEvent::Looked(exists)) => new == old && if !exists {
            n == AddTracksWizard { stage: AddStage::Asking, ..s } && (a matches AddAction::ReportNotFound(p)
                && p == s.path)
        } else if !named_wav(s.path@) {
            n == AddTracksWizard { stage: AddStage::Asking, ..s } && (a matches AddAction::ReportNotWav(p)
                && p == s.path)
        } else {
            n == AddTracksWizard { stage: AddStage::Reading, ..s } && (a matches AddAction::ReadHeader(p)
                && p == s.path)
        },
        (AddStage::Reading, AddEvent::WavRead(read)) => match read {
            Err(m) => new == old && n == AddTracksWizard { stage: AddStage::Asking, ..s } && a
                == AddAction::ReportUnreadable(m),
            Ok(info) => {
                let title = file_title(s.path@, count);
                if red_book_compliant(info.sample_rate, info.bits_per_sample, info.channels) {
                    &&& track_added(old, new, title, s.path@, info.duration, now)
                    &&& n.stage == AddStage::Asking && n.path == s.path && n.title@ == title
                    &&& n.info == s.info
                    &&& a matches AddAction::ReportAdded { title: t, duration } && t@ == title
                        && duration == info.duration
                } else {
                    &&& new == old
                    &&& n.stage == AddStage::Choosing && n.path == s.path && n.title@ == title
                    &&& n.info == Some(info)
                    &&& a matches AddAction::OfferConversion(issues) && string_views(issues@)
                        == format_issue_texts(info.sample_rate, info.bits_per_sample, info.channels)
                }
            },
        },
        (AddStage::Choosing, AddEvent::ChoiceMade(choice)) => new == old && match choice {
            NonCompliantChoice::Convert => n == AddTracksWizard {
                stage: AddStage::Converting,
                info: None,
                ..s
            } && (a matches AddAction::Convert { source, output, info } && source == s.path
                && output@ == converted_path(s.path@) && s.info == Some(info)),
            NonCompliantChoice::Skip => n == AddTracksWizard { stage: AddStage::Asking, ..s } && a is AskPath,
            NonCompliantChoice::Abort => n == AddTracksWizard { stage: AddStage::Finished, ..s } && a is Finish,
        },
        (AddStage::Converting, AddEvent::Converted(done)) => match done {
            Err(m) => new == old && n == AddTracksWizard { stage: AddStage::Asking, ..s } && a
                == AddAction::ReportConversionFailed(m),
            Ok(d) => {
                &&& track_added(old, new, s.title@, converted_path(s.path@), d, now)
                &&& n == AddTracksWizard { stage: AddStage::Asking, ..s }
                &&& a matches AddAction::ReportConvertedAdded { title, duration, output } && title
                    == s.title && duration == d && output@ == converted_path(s.path@)
            },
        },
        _ => new == old && n == s && a is Ignore,
    }
}

/// Whether the file at `path` is named as a WAV file.
fn is_wav_name(path: &str) -> (b: bool)
    ensures
        b == named_wav(path@),
{
    match path_extension(path) {
        Some(e) => {
            if e.unicode_len() != 3 {
                return false;
            }
            let c0 = e.as_str().get_char(0);
            let c1 = e.as_str().get_char(1);
            let c2 = e.as_str().get_char(2);
            (c0 == 'w' || c0 == 'W') && (c1 == 'a' || c1 == 'A') && (c2 == 'v' || c2 == 'V')
        },
        None => false,
    }
}

/// The title of a track made from the file at `path` on an album with `count` tracks.
fn title_for(path: &str, count: usize) -> (t: String)
    requires
        count < usize::MAX,
    ensures
        t@ == file_title(path@, count as nat),
{
    match path_file_stem(path) {
        Some(stem) => clean_track_title(stem.as_str()),
        None => {
            let mut t = String::new();
            push_str(&mut t, "Track ");
            push_decimal(&mut t, count as u64 + 1);
            t
        },
    }
}

/// Where the converted copy of the file at `path` goes.
fn converted_path_for(path: &str) -> (o: String)
    ensures
        o@ == converted_path(path@),
{
    let mut name = String::new();
    match path_file_stem(path) {
        Some(stem) => push_str(&mut name, stem.as_str()),
        None => push_str(&mut name, "track"),
    }
    push_str(&mut name, "_converted.wav");
    path_with_file_name(path, name.as_str())
}

/// Add a new track for `source` to the album at `now`.
fn add_new_track(album: &mut Album, title: String, source: String, duration: Duration, now: Timestamp)
    ensures
        track_added(*old(album), *final(album), title@, source@, duration, now),
{
    let count = album.tracks.len();
    let number: u8 = (((count % 256) as u64 + 1) % 256) as u8;
    assert(number == position_number(count as int));
    let track = Track::new(number, title, source, duration);
    album.add_track(track, now);
    proof {
        let n = old(album).tracks@.len();
        assert(final(album).tracks@.take(n as int) =~= old(album).tracks@);
        assert(final(album).tracks@[n as int] == track);
    }
}

/// The wizard's next state and action when `event` arrives in state `state`;
/// a track added goes to `album` at `now` (see `add_transition`).
pub fn add_step(state: AddTracksWizard, album: &mut Album, event: AddEvent, now: Timestamp) -> (r: (
    AddTracksWizard,
    AddAction,
))
    requires
        state.wf(),
        old(album).tracks@.len() < usize::MAX,
    ensures
        add_transition(state, *old(album), event, now, r.0, *final(album), r.1),
        r.0.wf(),
{
    let mut s = state;
    let a = match s.stage {
        AddStage::Asking => match event {
            AddEvent::PathEntered(entered) => match entered {
                Some(input) => {
                    let t = trimmed(input.as_str());
                    if t.unicode_len() == 0 {
                        s.stage = AddStage::Finished;
                        AddAction::Finish
                    } else {
                        s.path = t.clone();
                        s.stage = AddStage::Looking;
                        AddAction::LookFor(t)
                    }
                },
                None => {
                    s.stage = AddStage::Finished;
                    AddAction::Finish
                },
            },
            _ => AddAction::Ignore,
        },
        AddStage::Looking => match event {
            AddEvent::Looked(exists) => {
                if !exists {
                    s.stage = AddStage::Asking;
                    AddAction::ReportNotFound(s.path.clone())
                } else if !is_wav_name(s.path.as_str()) {
                    s.stage = AddStage::Asking;
                    AddAction::ReportNotWav(s.path.clone())
                } else {
                    s.stage = AddStage::Reading;
                    AddAction::ReadHeader(s.path.clone())
                }
            },
            _ => AddAction::Ignore,
        },
        AddStage::Reading => match event {
            AddEvent::WavRead(read) => match read {
                Err(m) => {
                    s.stage = AddStage::Asking;
                    AddAction::ReportUnreadable(m)
                },
                Ok(info) => {
                    let title = title_for(s.path.as_str(), album.tracks.len());
                    s.title = title.clone();
                    if info.is_red_book_compliant() {
                        let duration = info.duration;
                        add_new_track(album, title.clone(), s.path.clone(), duration, now);
                        s.stage = AddStage::Asking;
                        AddAction::ReportAdded { title, duration }
                    } else {
                        let issues = info.format_issues();
                        s.info = Some(info);
                        s.stage = AddStage::Choosing;
                        AddAction::OfferConversion(issues)
                    }
                },
            },
            _ => AddAction::Ignore,
        },
        AddStage::Choosing => match event {
            AddEvent::ChoiceMade(choice) => match choice {
                NonCompliantChoice::Convert => {
                    let output = converted_path_for(s.path.as_str());
                    let taken = s.info.take();
                    s.stage = AddStage::Converting;
                    match taken {
                        Some(info) => AddAction::Convert { source: s.path.clone(), output, info },
                        None => AddAction::Ignore,
                    }
                },
                NonCompliantChoice::Skip => {
                    s.stage = AddStage::Asking;
                    AddAction::AskPath
                },
                NonCompliantChoice::Abort => {
                    s.stage = AddStage::Finished;
                    AddAction::Finish
                },
            },
            _ => AddAction::Ignore,
        },
        AddStage::Converting => match event {
            AddEvent::Converted(done) => match done {
                Err(m) => {
                    s.stage = AddStage::Asking;
                    AddAction::ReportConversionFailed(m)
                },
                Ok(d) => {
                    let output = converted_path_for(s.path.as_str());
                    add_new_track(album, s.title.clone(), output.clone(), d, now);
                    s.stage = AddStage::Asking;
                    AddAction::ReportConvertedAdded { title: s.title.clone(), duration: d, output }
                },
            },
            _ => AddAction::Ignore,
        },
        AddStage::Finished => AddAction::Ignore,
    };
    (s, a)
}

/// Adding tracks keeps an album numbered: when every track of the album is
/// numbered after its position before a step of the wizard, so is every track
/// after it.
pub proof fn law_add_step_keeps_numbering(
    s: AddTracksWizard,
    old: Album,
    e: AddEvent,
    now: Timestamp,
    n: AddTracksWizard,
    new: Album,
    a: AddAction,
)
    requires
        add_transition(s, old, e, now, n, new, a),
        numbered(old.tracks@),
    ensures
        numbered(new.tracks@),
{
    if new != old {
        let k = old.tracks@.len();
        assert forall|i: int| 0 <= i < new.tracks@.len() implies #[trigger] new.tracks@[i].number
            == position_number(i) by {
            if i < k {
                assert(new.tracks@[i] == new.tracks@.take(k as int)[i]);
            }
        }
    }
}

/// The album changes only when a track is added, and a track is added only
/// for a file read as 44.1 kHz, 16-bit stereo audio (the file itself) or for a
/// finished conversion (the converted copy): looking for a file, reporting,
/// offering a conversion, skipping, aborting and failures leave the album as
/// it is, and no step adds more than one track.
pub proof fn law_add_step_adds_only_cd_audio(
    s: AddTracksWizard,
    old: Album,
    e: AddEvent,
    now: Timestamp,
    n: AddTracksWizard,
    new: Album,
    a: AddAction,
)
    requires
        add_transition(s, old, e, now, n, new, a),
    ensures
        new == old || new.tracks@.len() == old.tracks@.len() + 1,
        new != old ==> new.tracks@.take(old.tracks@.len() as int) == old.tracks@,
        new != old ==> {
            let added = new.tracks@[old.tracks@.len() as int];
            ||| (s.stage is Reading && (e matches AddEvent::WavRead(Ok(info)) && info.sample_rate
                == 44100 && info.bits_per_sample == 16 && info.channels == 2
                && added.source_file@ == s.path@ && added.duration == info.duration))
            ||| (s.stage is Converting && (e matches AddEvent::Converted(Ok(d))
                && added.source_file@ == converted_path(s.path@) && added.duration == d))
        },
        e matches AddEvent::ChoiceMade(_) ==> new == old,
        !(e matches AddEvent::WavRead(Ok(_))) && !(e matches AddEvent::Converted(Ok(_))) ==> new == old,
{
}

} // verus!
