//! What exporting a master needs before any file is written, and which files
//! each export format writes.
use vstd::prelude::*;

use crate::album::{album_nanos, album_validated, Album, AlbumValidationError};
use crate::text::{push_str, string_views};
use crate::time::MAX_NANOS;
use crate::track::track_checkable;
use crate::wav::{format_issue_texts, red_book_compliant, WavInfo};

verus! {

/// What was found of a track's source file.
#[derive(Debug)]
pub enum SourceCheck {
    /// The file does not exist.
    Missing,
    /// The file exists but its WAV header could not be read: the reason.
    Unreadable(String),
    /// The file's WAV header.
    Read(WavInfo),
}

/// Why an export was refused before writing anything.
#[derive(Debug)]
pub enum ExportRefusal {
    /// The album has no tracks.
    NoTracks,
    /// The album fails validation.
    Invalid(AlbumValidationError),
    /// A track's source file is missing: the track number and the path.
    Missing { track: u8, path: String },
    /// A track's source file cannot be read: the track number and the reason.
    Unreadable { track: u8, reason: String },
    /// A track's source file is not Red Book audio: the track number and the issues.
    NotCompliant { track: u8, issues: Vec<String> },
}

/// The export formats.
#[derive(Debug, Clone, Copy, PartialEq, Eq, Structural)]
pub enum ExportFormat {
    /// One WAV image with a CUE sheet and a TOC file (for burning)
    SingleWav,
    /// A CUE sheet that refers to each track's own WAV file
    MultiFile,
}

/// The files an export writes, by name.
#[derive(Debug)]
pub struct ExportPlan {
    /// The joined WAV image, for a single-WAV export
    pub wav: Option<String>,
    /// The CUE sheet
    pub cue: String,
    /// The cdrdao TOC file, for a single-WAV export
    pub toc: Option<String>,
}

/// Whether a source check stops the export.
pub open spec fn source_fails(c: SourceCheck) -> bool {
    match c {
        SourceCheck::Missing => true,
        SourceCheck::Unreadable(_) => true,
        SourceCheck::Read(info) => !red_book_compliant(
            info.sample_rate,
            info.bits_per_sample,
            info.channels,
        ),
    }
}

/// Whether `r` is the refusal that source check `c` of track `t` gives.
pub open spec fn source_refusal(c: SourceCheck, track: u8, path: Seq<char>, r: ExportRefusal) -> bool {
    match c {
        SourceCheck::Missing => r matches ExportRefusal::Missing { track: n, path: p } && n == track
            && p@ == path,
        SourceCheck::Unreadable(m) => r matches ExportRefusal::Unreadable { track: n, reason }
            && n == track && reason@ == m@,
        SourceCheck::Read(info) => r matches ExportRefusal::NotCompliant { track: n, issues }
            && n == track && string_views(issues@) == format_issue_texts(
            info.sample_rate,
            info.bits_per_sample,
            info.channels,
        ),
    }
}

/// Whether an export may go ahead: the album has tracks, passes validation, and
/// no source check stops it.
pub open spec fn export_allowed(album: &Album, sources: Seq<SourceCheck>) -> bool {
    &&& album.tracks@.len() > 0
    &&& album_validated(album, Ok(()))
    &&& forall|i: int| 0 <= i < sources.len() ==> !source_fails(#[trigger] sources[i])
}

/// Check that the album can be exported, given what was found of each track's
/// source file (in track order): it must have tracks, pass validation, and every
/// source must exist, be readable and be Red Book audio. The refusal names the
/// first check that fails.
pub fn export_gate(album: &Album, sources: &Vec<SourceCheck>) -> (r: Result<(), ExportRefusal>)
    requires
        album_nanos(album.tracks@) <= MAX_NANOS,
        forall|i: int| 0 <= i < album.tracks@.len() ==> track_checkable(#[trigger] &album.tracks@[i]),
        sources@.len() == album.tracks@.len(),
    ensures
        r is Ok <==> export_allowed(album, sources@),
        album.tracks@.len() == 0 ==> r matches Err(ExportRefusal::NoTracks),
        album.tracks@.len() > 0 && !album_validated(album, Ok(())) ==> (r matches Err(
            ExportRefusal::Invalid(e),
        ) && album_validated(album, Err(e))),
        album.tracks@.len() > 0 && album_validated(album, Ok(())) ==> match r {
            Ok(_) => forall|i: int| 0 <= i < sources@.len() ==> !source_fails(#[trigger] sources@[i]),
            Err(e) => exists|k: int|
                0 <= k < sources@.len() && source_fails(#[trigger] sources@[k]) && (forall|j: int|
                    0 <= j < k ==> !source_fails(#[trigger] sources@[j])) && source_refusal(
                    sources@[k],
                    album.tracks@[k].number,
                    album.tracks@[k].source_file@,
                    e,
                ),
        },
{
    if album.tracks.len() == 0 {
        return Err(ExportRefusal::NoTracks);
    }
    match album.validate() {
        Ok(()) => {},
        Err(e) => {
            return Err(ExportRefusal::Invalid(e));
        },
    }
    let mut i: usize = 0;
    while i < sources.len()
        invariant
            sources@.len() == album.tracks@.len(),
            album.tracks@.len() > 0,
            album_validated(album, Ok(())),
            i <= sources@.len(),
            forall|j: int| 0 <= j < i ==> !source_fails(#[trigger] sources@[j]),
        decreases sources@.len() - i,
    {
        let track = &album.tracks[i];
        match &sources[i] {
            SourceCheck::Missing => {
                return Err(
                    ExportRefusal::Missing { track: track.number, path: track.source_file.clone() },
                );
            },
            SourceCheck::Unreadable(m) => {
                return Err(ExportRefusal::Unreadable { track: track.number, reason: m.clone() });
            },
            SourceCheck::Read(info) => {
                if !info.is_red_book_compliant() {
                    return Err(
                        ExportRefusal::NotCompliant { track: track.number, issues: info.format_issues() },
                    );
                }
            },
        }
        i = i + 1;
    }
    Ok(())
}

/// The files an export named `base` writes: `base.wav`, `base.cue` and `base.toc`
/// for a single-WAV export, `base.cue` alone for a multi-file one.
pub fn export_files(base: &str, format: ExportFormat) -> (p: ExportPlan)
    ensures
        p.cue@ == base@ + ".cue"@,
        format == ExportFormat::SingleWav ==> (p.wav matches Some(w) && w@ == base@ + ".wav"@)
            && (p.toc matches Some(t) && t@ == base@ + ".toc"@),
        format == ExportFormat::MultiFile ==> p.wav is None && p.toc is None,
{
    let mut cue = String::new();
    push_str(&mut cue, base);
    push_str(&mut cue, ".cue");
    match format {
        ExportFormat::SingleWav => {
            let mut wav = String::new();
            push_str(&mut wav, base);
            push_str(&mut wav, ".wav");
            let mut toc = String::new();
            push_str(&mut toc, base);
            push_str(&mut toc, ".toc");
            ExportPlan { wav: Some(wav), cue, toc: Some(toc) }
        },
        ExportFormat::MultiFile => ExportPlan { wav: None, cue, toc: None },
    }
}

/// Whether a WAV header is CD audio: 44.1 kHz, 16-bit, two channels.
pub open spec fn cd_audio_header(info: WavInfo) -> bool {
    info.sample_rate == 44100 && info.bits_per_sample == 16 && info.channels == 2
}

/// A source stops the export exactly when its file is missing, cannot be read,
/// or is not 44.1 kHz, 16-bit stereo audio; so an export allowed by
/// `export_gate` has every source read with such a header, and any source that
/// is missing, unreadable, at another rate or depth, or mono (or more than two
/// channels) refuses it.
pub proof fn law_export_needs_cd_audio(album: &Album, sources: Seq<SourceCheck>)
    ensures
        forall|c: SourceCheck| #[trigger] source_fails(c) <==> match c {
            SourceCheck::Read(info) => !cd_audio_header(info),
            _ => true,
        },
        export_allowed(album, sources) ==> forall|i: int|
            0 <= i < sources.len() ==> (#[trigger] sources[i] matches SourceCheck::Read(info)
                && cd_audio_header(info)),
        (exists|i: int| 0 <= i < sources.len() && !(#[trigger] sources[i] matches SourceCheck::Read(info)
            && cd_audio_header(info))) ==> !export_allowed(album, sources),
{
    if export_allowed(album, sources) {
        assert forall|i: int| 0 <= i < sources.len() implies (#[trigger] sources[i] matches SourceCheck::Read(
            info,
        ) && cd_audio_header(info)) by {
            assert(!source_fails(sources[i]));
        }
    }
}

} // verus!
