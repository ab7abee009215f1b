use redbookmaster::album::{Album, AlbumValidationError};
use redbookmaster::clock::Timestamp;
use redbookmaster::metadata::Isrc;
use redbookmaster::project::Project;
use redbookmaster::time::Duration;
use redbookmaster::track::{
    duration_to_frames, format_duration_ms, format_duration_msf, frames_to_duration, min_pregap_secs,
    Track, TrackValidationError,
};

/// A fixed instant for the album timestamps.
const NOW: Timestamp = Timestamp { secs: 1_700_000_000, nanos: 0 };

#[test]
fn test_duration_to_frames() {
    assert_eq!(duration_to_frames(Duration::from_secs(1)), 75);
    assert_eq!(duration_to_frames(Duration::from_secs(2)), 150);
    assert_eq!(duration_to_frames(Duration::from_millis(1000)), 75);
}

#[test]
fn test_format_duration_msf() {
    assert_eq!(format_duration_msf(Duration::from_secs(0)), "00:00:00");
    assert_eq!(format_duration_msf(Duration::from_secs(1)), "00:01:00");
    assert_eq!(format_duration_msf(Duration::from_secs(60)), "01:00:00");
    assert_eq!(format_duration_msf(Duration::from_secs(125)), "02:05:00");
}

#[test]
fn test_new_album() {
    let album = Album::new("Test Album".to_string(), "Test Artist".to_string(), NOW);
    assert_eq!(album.title, "Test Album");
    assert_eq!(album.performer, "Test Artist");
    assert_eq!(album.tracks.len(), 0);
}

#[test]
fn test_add_track() {
    let mut album = Album::new("Test".to_string(), "Artist".to_string(), NOW);
    let track = Track::new(1, "Track 1".to_string(), "test.wav".to_string(), Duration::from_secs(180));
    album.add_track(track, NOW);
    assert_eq!(album.tracks.len(), 1);
    assert_eq!(album.tracks[0].number, 1);
}

#[test]
fn test_track_renumbering() {
    let mut album = Album::new("Test".to_string(), "Artist".to_string(), NOW);

    for i in 1..=3 {
        let track = Track::new(i, format!("Track {}", i), "test.wav".to_string(), Duration::from_secs(180));
        album.add_track(track, NOW);
    }

    album.remove_track(0, NOW);
    assert_eq!(album.tracks[0].number, 1);
    assert_eq!(album.tracks[1].number, 2);
}

#[test]
fn test_validate_empty_album() {
    let album = Album::new("Test".to_string(), "Artist".to_string(), NOW);
    assert!(matches!(album.validate(), Err(AlbumValidationError::NoTracks)));
}

#[test]
fn test_default_filename() {
    let album = Album::new("My Awesome Album!".to_string(), "Artist".to_string(), NOW);
    let project = Project::new(album);
    assert_eq!(project.default_filename(), "my-awesome-album_.rbm");
}

fn album_of(secs: &[u64]) -> Album {
    let mut album = Album::new("A".to_string(), "B".to_string(), NOW);
    for (i, s) in secs.iter().enumerate() {
        let n = (i + 1) as u8;
        album.add_track(Track::new(n, format!("T{}", n), "t.wav".to_string(), Duration::from_secs(*s)), NOW);
    }
    album
}

#[test]
fn frames_round_trip_loses_at_most_a_frame() {
    // 3 frames are 40 ms exactly; 1 frame is 13 ms, which reads back as 0 frames.
    assert_eq!(duration_to_frames(frames_to_duration(3)), 3);
    assert_eq!(duration_to_frames(frames_to_duration(1)), 0);
    assert_eq!(frames_to_duration(75).as_millis(), 1000);
}

#[test]
fn format_durations() {
    assert_eq!(format_duration_ms(Duration::from_secs(125)), "2:05");
    assert_eq!(format_duration_ms(Duration::from_secs(4797)), "79:57");
    assert_eq!(format_duration_msf(Duration::from_millis(1500)), "00:01:37");
}

#[test]
fn track_new_sets_pregap_for_track_one_only() {
    let t1 = Track::new(1, "a".to_string(), "a.wav".to_string(), Duration::from_secs(10));
    let t2 = Track::new(2, "b".to_string(), "b.wav".to_string(), Duration::from_secs(10));
    assert_eq!(t1.pregap.as_secs(), 2);
    assert_eq!(t2.pregap.as_secs(), 0);
    assert_eq!(min_pregap_secs(1), 2);
    assert_eq!(min_pregap_secs(2), 0);
    // 2 s pregap (150 frames) + 10 s (750 frames)
    assert_eq!(t1.total_frames(), 900);
    assert_eq!(t1.start_frame(0), 150);
    assert_eq!(t1.end_frame(150), 900);
}

#[test]
fn track_validation_errors() {
    let t = Track::new(0, "a".to_string(), "a.wav".to_string(), Duration::from_secs(10));
    assert!(matches!(t.validate(), Err(TrackValidationError::InvalidTrackNumber(0))));
    let t = Track::new(100, "a".to_string(), "a.wav".to_string(), Duration::from_secs(10));
    assert!(matches!(t.validate(), Err(TrackValidationError::InvalidTrackNumber(100))));
    let t = Track::new(3, "a".to_string(), "a.wav".to_string(), Duration::from_millis(3999));
    assert!(matches!(t.validate(), Err(TrackValidationError::TrackTooShort { track: 3, .. })));
    let mut t = Track::new(3, "a".to_string(), "a.wav".to_string(), Duration::from_secs(4));
    t.isrc = Some(Isrc::from_raw("US-ABC-24-1234X".to_string()));
    assert!(matches!(t.validate(), Err(TrackValidationError::InvalidIsrc { track: 3, .. })));
    t.isrc = Some(Isrc::from_raw("US-ABC-24-12345".to_string()));
    assert!(t.validate().is_ok());
}

#[test]
fn track_resolves_relative_source_against_project_dir() {
    let t = Track::new(1, "a".to_string(), "audio/a.wav".to_string(), Duration::from_secs(10));
    assert_eq!(t.resolve_source_file("/music/project"), "/music/project/audio/a.wav");
    let t = Track::new(1, "a".to_string(), "/abs/a.wav".to_string(), Duration::from_secs(10));
    assert_eq!(t.resolve_source_file("/music/project"), "/abs/a.wav");
}

#[test]
fn album_validation_errors() {
    let album = album_of(&[180, 200]);
    assert!(album.validate().is_ok());

    let album = album_of(&[3000, 3000]);
    assert!(matches!(album.validate(), Err(AlbumValidationError::TooLong { .. })));

    let mut album = album_of(&[10; 100]);
    assert_eq!(album.tracks.len(), 100);
    assert!(matches!(
        album.validate(),
        Err(AlbumValidationError::TooManyTracks { count: 100, max: 99 })
    ));
    album.remove_track(99, NOW);
    assert!(album.validate().is_ok());

    let mut album = album_of(&[180, 2]);
    assert!(matches!(album.validate(), Err(AlbumValidationError::TrackError(_))));
    album.tracks[1].duration = Duration::from_secs(5);
    album.tracks[0].pregap = Duration::from_secs(1);
    assert!(matches!(
        album.validate(),
        Err(AlbumValidationError::Track1PregapTooShort { .. })
    ));

    let mut album = album_of(&[180]);
    album.catalog = Some(redbookmaster::metadata::Mcn::from_raw("5901234123456".to_string()));
    assert!(matches!(album.validate(), Err(AlbumValidationError::InvalidCatalog(_))));
}

#[test]
fn album_move_track_and_back_restores_order() {
    let mut album = album_of(&[10, 20, 30, 40]);
    assert!(album.move_track(0, 2, NOW));
    assert_eq!(album.tracks[2].title, "T1");
    assert_eq!(album.tracks[0].title, "T2");
    assert_eq!(album.tracks[2].number, 3);
    assert!(album.move_track(2, 0, NOW));
    let titles: Vec<&str> = album.tracks.iter().map(|t| t.title.as_str()).collect();
    assert_eq!(titles, vec!["T1", "T2", "T3", "T4"]);
    let numbers: Vec<u8> = album.tracks.iter().map(|t| t.number).collect();
    assert_eq!(numbers, vec![1, 2, 3, 4]);
    assert!(!album.move_track(4, 0, NOW));
    assert!(!album.move_track(0, 4, NOW));
}

#[test]
fn album_totals_and_counts() {
    let mut album = album_of(&[60, 3, 120]);
    // 2 s pregap of track 1 counts towards the total.
    assert_eq!(album.total_duration().as_secs(), 185);
    assert_eq!(album.format_duration(), "3:05");
    assert_eq!(album.track_count(), 3);
    assert_eq!(album.count_long_enough(), 2);
    assert_eq!(album.count_with_isrc(), 0);
    album.tracks[0].isrc = Some(Isrc::new("US-ABC-24-12345").unwrap());
    assert_eq!(album.count_with_isrc(), 1);
    let removed = album.remove_track(1, NOW).unwrap();
    assert_eq!(removed.title, "T2");
    assert_eq!(album.total_duration().as_secs(), 182);
    assert!(album.remove_track(5, NOW).is_none());
}

#[test]
fn album_get_track_by_number() {
    let mut album = album_of(&[10, 20]);
    assert_eq!(album.get_track(2).unwrap().title, "T2");
    assert!(album.get_track(3).is_none());
    album.get_track_mut(1).unwrap().title = "First".to_string();
    assert!(album.get_track_mut(3).is_none());
    assert_eq!(album.tracks[0].title, "First");
}

#[test]
fn album_summary_lines() {
    let mut album = album_of(&[60]);
    album.songwriter = Some("W".to_string());
    let s = album.display_summary();
    assert_eq!(s, "Album: A\nArtist: B\nSongwriter: W\nTracks: 1\nTotal: 1:02\n");
}

#[test]
fn project_name_and_save_target() {
    let album = Album::new("Title".to_string(), "Artist".to_string(), NOW);
    let project = Project::new(album);
    assert_eq!(project.name(), "Title");
    assert!(project.save_target().is_err());
    assert!(!project.is_modified());
    let loaded = project.check_loaded("/tmp/x/My Disc.rbm".to_string()).unwrap();
    assert_eq!(loaded.name(), "My Disc");
    assert_eq!(loaded.save_target().unwrap(), "/tmp/x/My Disc.rbm");
}

#[test]
fn project_newer_version_is_refused() {
    let mut project = Project::empty(NOW);
    project.version = 99;
    assert!(matches!(
        project.check_loaded("p.rbm".to_string()),
        Err(redbookmaster::project::ProjectError::VersionTooNew { file_version: 99, .. })
    ));
}

#[test]
fn default_filename_lowercases_and_dashes() {
    let project = Project::new(Album::new("  Été Mix 2 ".to_string(), "A".to_string(), NOW));
    assert_eq!(project.default_filename(), "été-mix-2.rbm");
}

#[test]
fn add_then_remove_last_restores_tracks() {
    let mut album = album_of(&[10, 20]);
    album.add_track(Track::new(9, "New".to_string(), "n.wav".to_string(), Duration::from_secs(30)), NOW);
    assert_eq!(album.tracks[2].number, 3);
    let removed = album.remove_track(2, NOW).unwrap();
    assert_eq!(removed.title, "New");
    assert_eq!(removed.number, 3);
    let titles: Vec<&str> = album.tracks.iter().map(|t| t.title.as_str()).collect();
    assert_eq!(titles, vec!["T1", "T2"]);
    assert_eq!(album.total_duration().as_secs(), 32);
}

#[test]
fn valid_album_counts_every_track_long_enough() {
    let album = album_of(&[4, 60, 300]);
    assert!(album.validate().is_ok());
    assert_eq!(album.count_long_enough(), album.track_count());
    assert!(album.tracks_checkable());
    assert_eq!(album.checked_total_duration().unwrap().as_secs(), 366);
}

#[test]
fn album_timestamps_follow_the_given_instants() {
    let later = Timestamp { secs: 1_700_000_100, nanos: 5 };
    let mut album = Album::new("A".to_string(), "B".to_string(), NOW);
    assert_eq!(album.created_at, NOW);
    assert_eq!(album.modified_at, NOW);
    album.add_track(Track::new(1, "a".to_string(), "a.wav".to_string(), Duration::from_secs(10)), later);
    assert_eq!(album.modified_at, later);
    assert_eq!(album.created_at, NOW);
    let even_later = Timestamp { secs: 1_700_000_200, nanos: 0 };
    assert!(!album.move_track(0, 3, even_later));
    assert_eq!(album.modified_at, later);
    assert!(album.remove_track(4, even_later).is_none());
    assert_eq!(album.modified_at, later);
    let untitled = Project::empty(NOW).album;
    assert_eq!(untitled.title, "Untitled Album");
    assert_eq!(untitled.performer, "Unknown Artist");
}
