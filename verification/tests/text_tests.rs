use redbookmaster::text::{menu_number, parse_u64, remove_chars, transition_track_number, trimmed};
use redbookmaster::track_list::{drop_insert_index, selection_after_removal};
use redbookmaster::title::{clean_track_title, finish_track_title};

#[test]
fn clean_track_title_removes_number_prefixes() {
    assert_eq!(clean_track_title("01 - intro"), "Intro");
    assert_eq!(clean_track_title("02_my_song"), "My song");
    assert_eq!(clean_track_title("7. last one"), "Last one");
    assert_eq!(clean_track_title("Track 03 - outro"), "Outro");
    assert_eq!(clean_track_title("Track03_finale"), "Finale");
}

#[test]
fn clean_track_title_keeps_other_names() {
    assert_eq!(clean_track_title("already Titled"), "Already Titled");
    assert_eq!(clean_track_title("123 - three digits"), "123 - three digits");
    assert_eq!(clean_track_title("été"), "été");
    assert_eq!(clean_track_title(""), "");
}

#[test]
fn finishing_a_title() {
    assert_eq!(finish_track_title("  _hello_world_ "), "Hello world");
    assert_eq!(finish_track_title("Zebra"), "Zebra");
    assert_eq!(finish_track_title("1st"), "1st");
}

#[test]
fn parse_unsigned_numbers() {
    assert_eq!(parse_u64("0"), Some(0));
    assert_eq!(parse_u64("+42"), Some(42));
    assert_eq!(parse_u64("18446744073709551615"), Some(u64::MAX));
    assert_eq!(parse_u64("18446744073709551616"), None);
    assert_eq!(parse_u64(""), None);
    assert_eq!(parse_u64("+"), None);
    assert_eq!(parse_u64("-1"), None);
    assert_eq!(parse_u64(" 1"), None);
    assert_eq!(parse_u64("12a"), None);
    for s in ["0", "7", "+15", "00012", "4294967296", "99999999999999999999", "x", "+-3"] {
        assert_eq!(parse_u64(s), s.parse::<u64>().ok());
    }
}

#[test]
fn menu_entries_give_their_number() {
    assert_eq!(menu_number("3. Title"), Some(3));
    assert_eq!(menu_number(" 12 . Title.with.dots"), Some(12));
    assert_eq!(menu_number("Title"), None);
    assert_eq!(menu_number("7"), Some(7));
}

#[test]
fn trimming_and_removing() {
    assert_eq!(trimmed("\t a b \n"), "a b");
    assert_eq!(trimmed("   "), "");
    assert_eq!(remove_chars("US-ABC 24", '-', ' '), "USABC24");
}

#[test]
fn transition_labels_give_their_first_track() {
    assert_eq!(transition_track_number("Track 3 -> Track 4 (A -> B)"), Some(3));
    assert_eq!(transition_track_number("  Track 12->Track 13"), Some(12));
    assert_eq!(transition_track_number("Trak 3 -> Track 4"), None);
    assert_eq!(transition_track_number("Track x -> Track 4"), None);
    assert_eq!(transition_track_number("Track"), None);
}

#[test]
fn track_list_rules() {
    // Dragging row 0 down before row 3 of 4 puts it at row 2.
    assert_eq!(drop_insert_index(0, 3, 4), Some(2));
    // Dropping after the last row.
    assert_eq!(drop_insert_index(1, 4, 4), Some(3));
    // Dragging up needs no adjustment.
    assert_eq!(drop_insert_index(3, 1, 4), Some(1));
    assert_eq!(drop_insert_index(2, 2, 4), None);
    assert_eq!(drop_insert_index(4, 0, 4), None);
    assert_eq!(drop_insert_index(0, 5, 4), None);
    assert_eq!(selection_after_removal(1, 3), 1);
    assert_eq!(selection_after_removal(3, 3), 2);
    assert_eq!(selection_after_removal(0, 0), -1);
}
