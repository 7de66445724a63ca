use std::path::PathBuf;
use team_tool::clock::{millis_of, now_millis};
use team_tool::names::{
    draw_id, name_suffix, sanitize_name, team_dir, team_dir_in, teams_base_dir, teams_base_dir_in,
};
use team_tool::text::{decimal_text, is_blank, trim};

const ID: [u8; 16] = [
    0x67, 0xe5, 0x50, 0x44, 0x10, 0xb1, 0x42, 0x6f, 0x92, 0x47, 0xbb, 0x68, 0x0e, 0x5f, 0xe0, 0xc8,
];

#[test]
fn sanitize_replaces_what_may_not_stand_in_a_directory_name() {
    assert_eq!(sanitize_name("a b/c.d"), "a-b-c-d");
    assert_eq!(sanitize_name("../..\\x:y"), "------x-y");
    assert_eq!(sanitize_name("Team_7-b"), "Team_7-b");
    assert_eq!(sanitize_name(""), "");
}

#[test]
fn sanitize_keeps_letters_and_digits_of_every_script() {
    assert_eq!(sanitize_name("équipe京٣"), "équipe京٣");
    assert_eq!(sanitize_name("love💝"), "love-");
}

#[test]
fn sanitizing_twice_changes_nothing_more() {
    for name in ["a b", "é/京", "--__", "x.y.z"] {
        let once = sanitize_name(name);
        assert_eq!(sanitize_name(&once), once);
        assert_eq!(once.chars().count(), name.chars().count());
    }
}

#[test]
fn a_sanitized_name_holds_no_separator() {
    let all: String = (0u8..128).map(|b| b as char).collect();
    let safe = sanitize_name(&all);
    for c in safe.chars() {
        assert!(c.is_ascii_alphanumeric() || c == '-' || c == '_');
    }
}

#[test]
fn the_directory_of_a_team_lies_below_the_home_directory() {
    let home = PathBuf::from("/home/tester");
    assert_eq!(
        teams_base_dir_in(Some(home.clone())),
        Some(PathBuf::from("/home/tester/.claurst/teams"))
    );
    assert_eq!(
        team_dir_in(Some(home), "my team"),
        Some(PathBuf::from("/home/tester/.claurst/teams/my-team"))
    );
    assert_eq!(teams_base_dir_in(None), None);
    assert_eq!(team_dir_in(None, "my team"), None);
}

#[test]
fn teams_share_a_directory_where_their_sanitized_names_are_the_same() {
    let names = ["a b", "a-b", "a.b", "a_b", "ab", "", "-", "京"];
    let home = || Some(PathBuf::from("/home/tester"));
    for x in names {
        assert_eq!(team_dir_in(home(), &sanitize_name(x)), team_dir_in(home(), x));
        for y in names {
            assert_eq!(
                team_dir_in(home(), x).unwrap().into_os_string()
                    == team_dir_in(home(), y).unwrap().into_os_string(),
                sanitize_name(x) == sanitize_name(y)
            );
        }
    }
}

#[test]
fn an_id_drawn_at_random_is_a_uuid_of_its_version() {
    let id = draw_id();
    assert_eq!(uuid::Uuid::from_bytes(id).get_version_num(), 4);
    assert_ne!(id, draw_id());
}

#[test]
fn the_directory_of_the_current_user_is_looked_up() {
    assert_eq!(teams_base_dir(), teams_base_dir_in(dirs::home_dir()));
    assert_eq!(team_dir("a b"), team_dir_in(dirs::home_dir(), "a b"));
}

#[test]
fn the_suffix_is_the_beginning_of_the_uuid() {
    assert_eq!(name_suffix(&ID), "67e550");
    assert_eq!(uuid::Uuid::from_bytes(ID).to_string()[..6], name_suffix(&ID));
    assert_eq!(name_suffix(&[0; 16]), "000000");
    assert_eq!(name_suffix(&[255; 16]), "ffffff");
}

#[test]
fn trimming_goes_by_unicode_whitespace() {
    assert_eq!(trim("  a b \n"), "a b");
    assert_eq!(trim("\u{a0}\u{3000}é\u{2028}"), "é");
    assert_eq!(trim(" \t\r\n\u{b}\u{c}"), "");
    assert_eq!(trim(""), "");
    for text in [" x", "x ", "\u{85}x", "a\u{200b}"] {
        assert_eq!(trim(text), text.trim());
    }
}

#[test]
fn blank_texts_hold_nothing_but_whitespace() {
    assert!(is_blank(""));
    assert!(is_blank(" \t\u{3000}"));
    assert!(!is_blank(" - "));
    assert!(!is_blank("\u{200b}"));
}

#[test]
fn a_sanitized_name_is_blank_only_where_the_name_is() {
    for name in ["\u{3000}x", " !", "  京 ", "."] {
        assert!(!is_blank(name));
        assert!(!is_blank(&sanitize_name(name)));
    }
}

#[test]
fn numbers_are_written_in_decimal() {
    assert_eq!(decimal_text(0), "0");
    assert_eq!(decimal_text(7), "7");
    assert_eq!(decimal_text(120), "120");
    assert_eq!(decimal_text(u64::MAX), u64::MAX.to_string());
}

#[test]
fn milliseconds_are_counted_from_seconds_and_nanoseconds() {
    assert_eq!(millis_of(Some((12, 345_678_901))), 12_345);
    assert_eq!(millis_of(Some((0, 999_999))), 0);
    assert_eq!(millis_of(None), 0);
    assert_eq!(
        millis_of(Some((u64::MAX, 999_999_999))),
        (u64::MAX as u128 * 1000 + 999) as u64
    );
}

#[test]
fn the_clock_stands_after_its_last_reading() {
    let first = now_millis();
    let passed = std::time::UNIX_EPOCH.elapsed().unwrap().as_millis() as u64;
    assert!(first > 1_600_000_000_000);
    assert!(passed >= first && passed - first < 60_000);
}
