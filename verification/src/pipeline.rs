//! What the server decides about the mixing graph itself: which pad of the
//! input selector belongs to a branch, and which messages of the graph's bus
//! end its run.

use crate::failover::SpotifyInputSourceSelector;
use crate::text::{contains, occurs_in, same_text};
use vstd::prelude::*;
use vstd::string::*;

verus! {

/// The mark by which a pad of the input selector belongs to a branch: the
/// pad of the bridged audio was requested first, that of the silence second.
pub open spec fn branch_mark(branch: SpotifyInputSourceSelector) -> Seq<char> {
    match branch {
        SpotifyInputSourceSelector::Spotify => "0"@,
        SpotifyInputSourceSelector::Silence => "1"@,
    }
}

/// The pad of this name is an input of the selector and belongs to the
/// branch.
pub open spec fn is_branch_pad(name: Seq<char>, branch: SpotifyInputSourceSelector) -> bool {
    occurs_in("sink"@, name) && occurs_in(branch_mark(branch), name)
}

/// The pad of the input selector to make active for a branch: the position
/// of the first pad, among the selector's pads in their order, that is an
/// input and belongs to the branch; `None` where there is none, and then the
/// selector is left as it is.
pub fn branch_pad(pad_names: &Vec<String>, branch: SpotifyInputSourceSelector) -> (pad: Option<
    usize,
>)
    ensures
        match pad {
            Some(i) => i < pad_names@.len() && is_branch_pad(pad_names@[i as int]@, branch)
                && forall|j: int| 0 <= j < i ==> !is_branch_pad((#[trigger] pad_names@[j])@, branch),
            None => forall|j: int|
                0 <= j < pad_names@.len() ==> !is_branch_pad((#[trigger] pad_names@[j])@, branch),
        },
{
    let mark = match branch {
        SpotifyInputSourceSelector::Spotify => "0",
        SpotifyInputSourceSelector::Silence => "1",
    };
    let mut i: usize = 0;
    while i < pad_names.len()
        invariant
            i <= pad_names.len(),
            mark@ == branch_mark(branch),
            forall|j: int| 0 <= j < i ==> !is_branch_pad((#[trigger] pad_names@[j])@, branch),
        decreases pad_names.len() - i,
    {
        let name = pad_names[i].as_str();
        if contains(name, "sink") && contains(name, mark) {
            return Some(i);
        }
        i = i + 1;
    }
    None
}

/// Whether a pad that announces this kind of media is linked into the graph:
/// so it is for audio, and for nothing else.
pub fn carries_audio(media: &str) -> (b: bool)
    ensures
        b == (media@ == "audio"@),
{
    same_text(media, "audio")
}

/// The kinds of message on the graph's bus that the server tells apart.
#[derive(Clone, Copy, Debug, PartialEq, Eq, Structural)]
pub enum BusMessage {
    EndOfStream,
    Error,
    Warning,
    Other,
}

/// What the server does with a message of the bus.
#[derive(Clone, Copy, Debug, PartialEq, Eq, Structural)]
pub struct BusVerdict {
    /// The message is written to the log.
    pub logged: bool,
    /// The server stops listening and shuts the graph down.
    pub shuts_down: bool,
}

/// The end of the stream and an error are logged and end the graph's run; a
/// warning is logged; anything else passes.
pub fn bus_verdict(message: BusMessage) -> (verdict: BusVerdict)
    ensures
        verdict.logged == (message != BusMessage::Other),
        verdict.shuts_down == (message == BusMessage::EndOfStream || message
            == BusMessage::Error),
{
    match message {
        BusMessage::EndOfStream => BusVerdict { logged: true, shuts_down: true },
        BusMessage::Error => BusVerdict { logged: true, shuts_down: true },
        BusMessage::Warning => BusVerdict { logged: true, shuts_down: false },
        BusMessage::Other => BusVerdict { logged: false, shuts_down: false },
    }
}

} // verus!
