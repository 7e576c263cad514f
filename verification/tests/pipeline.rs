use carechords::failover::SpotifyInputSourceSelector;
use carechords::pipeline::{branch_pad, bus_verdict, carries_audio, BusMessage, BusVerdict};

fn names(list: &[&str]) -> Vec<String> {
    list.iter().map(|s| s.to_string()).collect()
}

#[test]
fn pads_are_told_apart_by_their_number() {
    let pads = names(&["src", "sink_0", "sink_1"]);
    assert_eq!(branch_pad(&pads, SpotifyInputSourceSelector::Spotify), Some(1));
    assert_eq!(branch_pad(&pads, SpotifyInputSourceSelector::Silence), Some(2));
}

#[test]
fn first_matching_pad_wins() {
    let pads = names(&["sink_10", "sink_0", "sink_1"]);
    assert_eq!(branch_pad(&pads, SpotifyInputSourceSelector::Spotify), Some(0));
    assert_eq!(branch_pad(&pads, SpotifyInputSourceSelector::Silence), Some(0));
}

#[test]
fn no_pad_no_switch() {
    assert_eq!(branch_pad(&names(&["src", "sink_2"]), SpotifyInputSourceSelector::Spotify), None);
    assert_eq!(branch_pad(&names(&["src_1", "0"]), SpotifyInputSourceSelector::Silence), None);
    assert_eq!(branch_pad(&vec![], SpotifyInputSourceSelector::Silence), None);
}

#[test]
fn bus_messages_that_end_the_run() {
    assert_eq!(bus_verdict(BusMessage::EndOfStream), BusVerdict { logged: true, shuts_down: true });
    assert_eq!(bus_verdict(BusMessage::Error), BusVerdict { logged: true, shuts_down: true });
    assert_eq!(bus_verdict(BusMessage::Warning), BusVerdict { logged: true, shuts_down: false });
    assert_eq!(bus_verdict(BusMessage::Other), BusVerdict { logged: false, shuts_down: false });
}

#[test]
fn only_audio_pads_are_linked() {
    assert!(carries_audio("audio"));
    assert!(!carries_audio("video"));
    assert!(!carries_audio("Audio"));
    assert!(!carries_audio(""));
}
