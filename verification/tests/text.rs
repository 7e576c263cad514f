use carechords::text::{contains, join, same_text, starts_with};

#[test]
fn prefix_is_found() {
    assert!(starts_with("spotify:track:1", "spotify:"));
    assert!(starts_with("abc", ""));
    assert!(starts_with("abc", "abc"));
    assert!(!starts_with("ab", "abc"));
    assert!(!starts_with("xspotify:", "spotify:"));
    assert!(starts_with("äöü", "äö"));
}

#[test]
fn occurrence_is_found() {
    assert!(contains("org.mpris.MediaPlayer2.spotifyd.instance1", "MediaPlayer2.spotify"));
    assert!(contains("abc", ""));
    assert!(contains("", ""));
    assert!(contains("abc", "c"));
    assert!(contains("abc", "abc"));
    assert!(!contains("abc", "abcd"));
    assert!(!contains("abc", "ca"));
    assert!(contains("naïve café", "é"));
}

#[test]
fn texts_are_compared() {
    assert!(same_text("Playing", "Playing"));
    assert!(!same_text("Playing", "playing"));
    assert!(same_text("", ""));
}

#[test]
fn parts_are_joined() {
    assert_eq!(join(&vec![], " & "), "");
    assert_eq!(join(&vec!["A".to_string()], " & "), "A");
    assert_eq!(join(&vec!["A".to_string(), "B".to_string(), "C".to_string()], " & "), "A & B & C");
    assert_eq!(join(&vec!["".to_string(), "".to_string()], "-"), "-");
}
