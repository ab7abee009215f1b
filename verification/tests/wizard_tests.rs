use redbookmaster::add_tracks::{add_step, AddAction, AddEvent, AddStage, AddTracksWizard, NonCompliantChoice};
use redbookmaster::album::{Album, AlbumValidationError};
use redbookmaster::burn::{burn_step, BurnAction, BurnEvent, BurnStage, BurnWizard};
use redbookmaster::cdrdao::{CdTextDriver, CdrdaoError};
use redbookmaster::clock::Timestamp;
use redbookmaster::concat::sample_24_to_16;
use redbookmaster::export::{export_files, export_gate, ExportFormat, ExportRefusal, SourceCheck};
use redbookmaster::metadata::Isrc;
use redbookmaster::playback::{
    playback_step, transition_plan, transition_play_time, KeyAction, PlaybackClock,
};
use redbookmaster::text::is_whitespace;
use redbookmaster::time::Duration;
use redbookmaster::track::Track;
use redbookmaster::wav::WavInfo;

const NOW: Timestamp = Timestamp { secs: 1_700_000_000, nanos: 0 };

fn album_with(count: u8) -> Album {
    let mut album = Album::new("Album".to_string(), "Artist".to_string(), NOW);
    for i in 1..=count {
        let track = Track::new(i, format!("Track {}", i), format!("t{}.wav", i), Duration::from_secs(180));
        album.add_track(track, NOW);
    }
    album
}

fn wav(sample_rate: u32, bits: u16, channels: u16) -> WavInfo {
    WavInfo {
        sample_rate,
        bits_per_sample: bits,
        channels,
        duration: Duration::from_secs(180),
        num_samples: 180 * sample_rate as u64,
        path: "t.wav".to_string(),
    }
}

/// Feed events to a new wizard and collect the actions.
fn run(album: &Album, events: Vec<BurnEvent>) -> (BurnWizard, Vec<BurnAction>) {
    let mut wizard = BurnWizard::new();
    let mut actions = Vec::new();
    for e in events {
        let (next, a) = burn_step(wizard, album, e);
        wizard = next;
        actions.push(a);
    }
    (wizard, actions)
}

#[test]
fn burn_full_flow_with_simulation() {
    let album = album_with(2);
    let (w, actions) = run(
        &album,
        vec![
            BurnEvent::Begin,
            BurnEvent::ToolChecked(true),
            BurnEvent::TocLooked(Some("/music/album.toc".to_string())),
            BurnEvent::DrivesListed(Ok(vec!["/dev/sr0".to_string()])),
            BurnEvent::SpeedChosen(Some("8x".to_string())),
            BurnEvent::SimulateAnswered(Some(true)),
            BurnEvent::SimulationDone(Ok(())),
            BurnEvent::ProceedAnswered(Some(true)),
            BurnEvent::ReadyAnswered(Some(true)),
            BurnEvent::BurnDone(Ok(())),
        ],
    );
    assert!(matches!(actions[0], BurnAction::CheckTool));
    assert!(matches!(actions[1], BurnAction::LookForToc));
    assert!(matches!(actions[2], BurnAction::ListDrives));
    assert!(matches!(actions[3], BurnAction::UseOnlyDrive));
    assert!(matches!(actions[4], BurnAction::AskSimulate));
    match &actions[5] {
        BurnAction::RunSimulation { options, toc } => {
            assert_eq!(options.device, "/dev/sr0");
            assert_eq!(options.speed, 8);
            assert!(options.simulate);
            assert!(options.eject);
            assert_eq!(options.cd_text_driver, CdTextDriver::GenericMmcRaw);
            assert_eq!(toc, "/music/album.toc");
        }
        other => panic!("unexpected {:?}", other),
    }
    assert!(matches!(actions[6], BurnAction::AskProceed));
    assert!(matches!(actions[7], BurnAction::AskReady));
    match &actions[8] {
        BurnAction::StartBurn { options, toc } => {
            assert_eq!(options.device, "/dev/sr0");
            assert_eq!(options.speed, 8);
            assert!(!options.simulate);
            assert!(options.eject);
            assert_eq!(options.cd_text_driver, CdTextDriver::GenericMmcRaw);
            assert_eq!(toc, "/music/album.toc");
        }
        other => panic!("unexpected {:?}", other),
    }
    assert!(matches!(actions[9], BurnAction::ReportBurn(Ok(()))));
    assert_eq!(w.stage, BurnStage::Done);
}

#[test]
fn burn_without_simulation_picks_drive_and_auto_speed() {
    let album = album_with(1);
    let (_, actions) = run(
        &album,
        vec![
            BurnEvent::Begin,
            BurnEvent::ToolChecked(true),
            BurnEvent::TocLooked(Some("a.toc".to_string())),
            BurnEvent::DrivesListed(Ok(vec!["/dev/sr0".to_string(), "/dev/sr1".to_string()])),
            BurnEvent::DriveChosen(Some(1)),
            BurnEvent::SpeedChosen(Some("Auto (let drive decide)".to_string())),
            BurnEvent::SimulateAnswered(Some(false)),
            BurnEvent::ReadyAnswered(Some(true)),
        ],
    );
    assert!(matches!(actions[3], BurnAction::AskDrive));
    assert!(matches!(actions[4], BurnAction::AskSpeed));
    assert!(matches!(actions[6], BurnAction::AskReady));
    match &actions[7] {
        BurnAction::StartBurn { options, .. } => {
            assert_eq!(options.device, "/dev/sr1");
            assert_eq!(options.speed, 0);
        }
        other => panic!("unexpected {:?}", other),
    }
}

#[test]
fn burn_failed_simulation_never_burns() {
    let album = album_with(1);
    let (w, actions) = run(
        &album,
        vec![
            BurnEvent::Begin,
            BurnEvent::ToolChecked(true),
            BurnEvent::TocLooked(Some("a.toc".to_string())),
            BurnEvent::DrivesListed(Ok(vec!["/dev/sr0".to_string()])),
            BurnEvent::SpeedChosen(Some("4x".to_string())),
            BurnEvent::SimulateAnswered(Some(true)),
            BurnEvent::SimulationDone(Err(CdrdaoError::BurnFailed("no disc".to_string()))),
            BurnEvent::ProceedAnswered(Some(true)),
            BurnEvent::ReadyAnswered(Some(true)),
        ],
    );
    assert!(matches!(actions[6], BurnAction::ReportSimulationFailed(CdrdaoError::BurnFailed(_))));
    assert!(matches!(actions[7], BurnAction::Ignore));
    assert!(matches!(actions[8], BurnAction::Ignore));
    assert_eq!(w.stage, BurnStage::Done);
}

#[test]
fn burn_missing_tool_and_empty_album() {
    let album = album_with(1);
    let (w, actions) = run(&album, vec![BurnEvent::Begin, BurnEvent::ToolChecked(false)]);
    assert!(matches!(actions[1], BurnAction::ExplainMissingTool));
    assert_eq!(w.stage, BurnStage::Done);

    let empty = album_with(0);
    let (_, actions) = run(&empty, vec![BurnEvent::Begin, BurnEvent::ToolChecked(true)]);
    assert!(matches!(actions[1], BurnAction::ReportNoTracks));
}

#[test]
fn burn_invalid_album_is_reported() {
    let mut album = album_with(1);
    album.tracks[0].duration = Duration::from_secs(2);
    let (_, actions) = run(&album, vec![BurnEvent::Begin, BurnEvent::ToolChecked(true)]);
    assert!(matches!(actions[1], BurnAction::ReportInvalid(AlbumValidationError::TrackError(_))));
}

#[test]
fn burn_export_offered_then_cancelled_or_failed() {
    let album = album_with(1);
    let (_, actions) = run(
        &album,
        vec![BurnEvent::Begin, BurnEvent::ToolChecked(true), BurnEvent::TocLooked(None), BurnEvent::ExportAnswered(false)],
    );
    assert!(matches!(actions[2], BurnAction::OfferExport));
    assert!(matches!(actions[3], BurnAction::Stop));

    let (_, actions) = run(
        &album,
        vec![
            BurnEvent::Begin,
            BurnEvent::ToolChecked(true),
            BurnEvent::TocLooked(None),
            BurnEvent::ExportAnswered(true),
            BurnEvent::TocLooked(None),
        ],
    );
    assert!(matches!(actions[3], BurnAction::ExportThenLookForToc));
    assert!(matches!(actions[4], BurnAction::ReportExportFailed));
}

#[test]
fn burn_scan_failure_asks_device_and_cancel_stops() {
    let album = album_with(1);
    let (_, actions) = run(
        &album,
        vec![
            BurnEvent::Begin,
            BurnEvent::ToolChecked(true),
            BurnEvent::TocLooked(Some("a.toc".to_string())),
            BurnEvent::DrivesListed(Err(CdrdaoError::NotInstalled)),
            BurnEvent::DeviceEntered(Some("/dev/cdrom".to_string())),
            BurnEvent::SpeedChosen(Some("2x".to_string())),
            BurnEvent::SimulateAnswered(Some(false)),
            BurnEvent::ReadyAnswered(Some(false)),
        ],
    );
    assert!(matches!(actions[3], BurnAction::AskDevice(CdrdaoError::NotInstalled)));
    assert!(matches!(actions[4], BurnAction::UseOnlyDrive));
    assert!(matches!(actions[7], BurnAction::Cancelled));

    let (_, actions) = run(
        &album,
        vec![
            BurnEvent::Begin,
            BurnEvent::ToolChecked(true),
            BurnEvent::TocLooked(Some("a.toc".to_string())),
            BurnEvent::DrivesListed(Ok(vec![])),
        ],
    );
    assert!(matches!(actions[3], BurnAction::ReportNoDrives));
}

#[test]
fn burn_out_of_place_event_is_ignored() {
    let album = album_with(1);
    let (w, actions) = run(&album, vec![BurnEvent::ReadyAnswered(Some(true))]);
    assert!(matches!(actions[0], BurnAction::Ignore));
    assert_eq!(w.stage, BurnStage::Start);
}

#[test]
fn export_gate_refusals() {
    let empty = album_with(0);
    assert!(matches!(export_gate(&empty, &vec![]), Err(ExportRefusal::NoTracks)));

    let album = album_with(2);
    let ok = vec![SourceCheck::Read(wav(44100, 16, 2)), SourceCheck::Read(wav(44100, 16, 2))];
    assert!(export_gate(&album, &ok).is_ok());

    let missing = vec![SourceCheck::Read(wav(44100, 16, 2)), SourceCheck::Missing];
    match export_gate(&album, &missing) {
        Err(ExportRefusal::Missing { track, path }) => {
            assert_eq!(track, 2);
            assert_eq!(path, "t2.wav");
        }
        other => panic!("unexpected {:?}", other),
    }

    let unreadable = vec![SourceCheck::Unreadable("bad header".to_string()), SourceCheck::Missing];
    match export_gate(&album, &unreadable) {
        Err(ExportRefusal::Unreadable { track, reason }) => {
            assert_eq!(track, 1);
            assert_eq!(reason, "bad header");
        }
        other => panic!("unexpected {:?}", other),
    }

    let not_red_book = vec![SourceCheck::Read(wav(48000, 24, 2)), SourceCheck::Read(wav(44100, 16, 2))];
    match export_gate(&album, &not_red_book) {
        Err(ExportRefusal::NotCompliant { track, issues }) => {
            assert_eq!(track, 1);
            assert_eq!(issues.len(), 2);
        }
        other => panic!("unexpected {:?}", other),
    }

    let mut invalid = album_with(1);
    invalid.tracks[0].duration = Duration::from_secs(1);
    let one = vec![SourceCheck::Read(wav(44100, 16, 2))];
    assert!(matches!(export_gate(&invalid, &one), Err(ExportRefusal::Invalid(_))));
}

#[test]
fn export_files_per_format() {
    let single = export_files("my-album", ExportFormat::SingleWav);
    assert_eq!(single.cue, "my-album.cue");
    assert_eq!(single.wav.as_deref(), Some("my-album.wav"));
    assert_eq!(single.toc.as_deref(), Some("my-album.toc"));

    let multi = export_files("my-album", ExportFormat::MultiFile);
    assert_eq!(multi.cue, "my-album.cue");
    assert!(multi.wav.is_none());
    assert!(multi.toc.is_none());
}

#[test]
fn playback_keys() {
    let c = PlaybackClock::new();
    assert_eq!(playback_step(c, Some(b' '), 0, false, 1000).1, KeyAction::TogglePause);
    assert_eq!(playback_step(c, Some(b'q'), 0, false, 1000).1, KeyAction::Stop);
    assert_eq!(playback_step(c, Some(b'Q'), 0, false, 1000).1, KeyAction::Stop);
    assert_eq!(playback_step(c, Some(b'+'), 0, false, 1000).1, KeyAction::VolumeUp);
    assert_eq!(playback_step(c, Some(b'='), 0, false, 1000).1, KeyAction::VolumeUp);
    assert_eq!(playback_step(c, Some(b'-'), 0, false, 1000).1, KeyAction::VolumeDown);
    assert_eq!(playback_step(c, Some(b'_'), 0, false, 1000).1, KeyAction::VolumeDown);
    assert_eq!(playback_step(c, Some(b'x'), 0, false, 1000).1, KeyAction::Nothing);
    assert_eq!(playback_step(c, None, 0, false, 1000).1, KeyAction::Nothing);
}

#[test]
fn playback_clock_discounts_pauses() {
    let c = PlaybackClock::new();
    let (c, _) = playback_step(c, None, 3_000, false, 10_000);
    assert_eq!(c.elapsed_ms, 3_000);
    assert_eq!(c.bar_secs, 3);
    // Paused from 3 s to 7 s.
    let (c, _) = playback_step(c, None, 3_000, true, 10_000);
    assert_eq!(c.pause_started_ms, Some(3_000));
    let (c, _) = playback_step(c, None, 7_000, false, 10_000);
    assert_eq!(c.paused_ms, 4_000);
    assert_eq!(c.pause_started_ms, None);
    assert_eq!(c.elapsed_ms, 3_000);
    // The bar stops at the duration.
    let (c, _) = playback_step(c, None, 20_000, false, 10_000);
    assert_eq!(c.elapsed_ms, 16_000);
    assert_eq!(c.bar_secs, 10);
}

#[test]
fn transition_plan_values() {
    let first = Track::new(1, "A".to_string(), "a.wav".to_string(), Duration::from_secs(180));
    let mut second = Track::new(2, "B".to_string(), "b.wav".to_string(), Duration::from_secs(120));
    second.pregap = Duration::from_secs(4);
    let plan = transition_plan(&first, &second);
    assert_eq!(plan.skip_to, Duration::from_secs(175));
    assert!(plan.has_gap);
    assert_eq!(plan.gap_wait, Duration::from_secs(3));

    let short = Track::new(1, "S".to_string(), "s.wav".to_string(), Duration::from_secs(3));
    let no_gap = Track::new(2, "N".to_string(), "n.wav".to_string(), Duration::from_secs(60));
    let plan = transition_plan(&short, &no_gap);
    assert_eq!(plan.skip_to, Duration::from_secs(0));
    assert!(!plan.has_gap);
    assert_eq!(plan.gap_wait, Duration::from_secs(0));

    assert_eq!(transition_play_time(Duration::from_secs(60)), Duration::from_secs(5));
    assert_eq!(transition_play_time(Duration::from_secs(2)), Duration::from_secs(2));
}

#[test]
fn sample_conversion_keeps_top_bits() {
    assert_eq!(sample_24_to_16(0x7F_FFFF), 0x7FFF);
    assert_eq!(sample_24_to_16(-0x80_0000), -0x8000);
    assert_eq!(sample_24_to_16(256), 1);
    assert_eq!(sample_24_to_16(-1), -1);
    assert_eq!(sample_24_to_16(255), 0);
}

#[test]
fn whitespace_classes() {
    assert!(is_whitespace(' '));
    assert!(is_whitespace('\t'));
    assert!(is_whitespace('\u{3000}'));
    assert!(!is_whitespace('a'));
    assert!(!is_whitespace('\u{200B}'));
}

#[test]
fn isrc_from_raw_uppercases_and_drops_dashes() {
    assert_eq!(Isrc::from_raw("x-1".to_string()).as_str(), "X1");
}

#[test]
fn editing_tracks_keeps_cd_text() {
    let mut album = album_with(2);
    album.cd_text.message = Some("liner".to_string());
    let t = Track::new(3, "C".to_string(), "c.wav".to_string(), Duration::from_secs(60));
    album.add_track(t, NOW);
    album.move_track(0, 2, NOW);
    album.remove_track(1, NOW);
    assert_eq!(album.cd_text.message.as_deref(), Some("liner"));
}

#[test]
fn add_tracks_flow() {
    let mut album = album_with(0);
    let w = AddTracksWizard::new();

    // An empty line ends the wizard.
    let (done, a) = add_step(AddTracksWizard::new(), &mut album, AddEvent::PathEntered(Some("  ".to_string())), NOW);
    assert!(matches!(a, AddAction::Finish));
    assert_eq!(done.stage, AddStage::Finished);

    // A Red Book file is added at once, titled after its name.
    let (w, a) = add_step(w, &mut album, AddEvent::PathEntered(Some(" music/01 - intro_song.WAV ".to_string())), NOW);
    match a {
        AddAction::LookFor(p) => assert_eq!(p, "music/01 - intro_song.WAV"),
        other => panic!("unexpected {:?}", other),
    }
    let (w, a) = add_step(w, &mut album, AddEvent::Looked(true), NOW);
    assert!(matches!(a, AddAction::ReadHeader(_)));
    let (w, a) = add_step(w, &mut album, AddEvent::WavRead(Ok(wav(44100, 16, 2))), NOW);
    match a {
        AddAction::ReportAdded { title, duration } => {
            assert_eq!(title, "Intro song");
            assert_eq!(duration, Duration::from_secs(180));
        }
        other => panic!("unexpected {:?}", other),
    }
    assert_eq!(album.tracks.len(), 1);
    assert_eq!(album.tracks[0].number, 1);
    assert_eq!(album.tracks[0].pregap, Duration::from_secs(2));

    // A missing file and a file not named .wav are reported.
    let (w, _) = add_step(w, &mut album, AddEvent::PathEntered(Some("gone.wav".to_string())), NOW);
    let (w, a) = add_step(w, &mut album, AddEvent::Looked(false), NOW);
    assert!(matches!(a, AddAction::ReportNotFound(_)));
    let (w, _) = add_step(w, &mut album, AddEvent::PathEntered(Some("notes.txt".to_string())), NOW);
    let (w, a) = add_step(w, &mut album, AddEvent::Looked(true), NOW);
    assert!(matches!(a, AddAction::ReportNotWav(_)));

    // Other audio is converted beside the source and the copy is added.
    let (w, _) = add_step(w, &mut album, AddEvent::PathEntered(Some("dir/b.wav".to_string())), NOW);
    let (w, _) = add_step(w, &mut album, AddEvent::Looked(true), NOW);
    let (w, a) = add_step(w, &mut album, AddEvent::WavRead(Ok(wav(48000, 24, 2))), NOW);
    match a {
        AddAction::OfferConversion(issues) => assert_eq!(issues.len(), 2),
        other => panic!("unexpected {:?}", other),
    }
    let (w, a) = add_step(w, &mut album, AddEvent::ChoiceMade(NonCompliantChoice::Convert), NOW);
    match a {
        AddAction::Convert { source, output, .. } => {
            assert_eq!(source, "dir/b.wav");
            assert_eq!(output, "dir/b_converted.wav");
        }
        other => panic!("unexpected {:?}", other),
    }
    let (w, a) = add_step(w, &mut album, AddEvent::Converted(Ok(Duration::from_secs(90))), NOW);
    match a {
        AddAction::ReportConvertedAdded { title, output, .. } => {
            assert_eq!(title, "B");
            assert_eq!(output, "dir/b_converted.wav");
        }
        other => panic!("unexpected {:?}", other),
    }
    assert_eq!(album.tracks.len(), 2);
    assert_eq!(album.tracks[1].number, 2);
    assert_eq!(album.tracks[1].source_file, "dir/b_converted.wav");
    assert_eq!(album.tracks[1].pregap, Duration::from_secs(0));

    // Abort ends the wizard.
    let (w, _) = add_step(w, &mut album, AddEvent::PathEntered(Some("c.wav".to_string())), NOW);
    let (w, _) = add_step(w, &mut album, AddEvent::Looked(true), NOW);
    let (w, _) = add_step(w, &mut album, AddEvent::WavRead(Ok(wav(22050, 8, 1))), NOW);
    let (w, a) = add_step(w, &mut album, AddEvent::ChoiceMade(NonCompliantChoice::Abort), NOW);
    assert!(matches!(a, AddAction::Finish));
    assert_eq!(w.stage, AddStage::Finished);
    assert_eq!(album.tracks.len(), 2);
}
