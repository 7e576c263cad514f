//! What is shown of a track that the decoding engine has changed to: which
//! of its artists is named, and which of its covers is linked.

use crate::info::{MetadataView, MusicMetadata};
use vstd::prelude::*;
use vstd::string::*;

verus! {

/// The artist that is named where a track names none.
pub const UNKNOWN_ARTIST: &'static str = "Unknown Artist";

/// One artist of a track, and whether the track lists them as a main artist.
#[derive(Clone, Debug, PartialEq, Eq)]
pub struct TrackArtist {
    pub name: String,
    pub main: bool,
}

/// An artist as contracts see them.
pub struct ArtistView {
    pub name: Seq<char>,
    pub main: bool,
}

impl View for TrackArtist {
    type V = ArtistView;

    open spec fn view(&self) -> ArtistView {
        ArtistView { name: self.name@, main: self.main }
    }
}

/// The views of a list of artists, in order.
pub open spec fn artist_views(artists: Seq<TrackArtist>) -> Seq<ArtistView> {
    Seq::new(artists.len(), |i: int| artists[i]@)
}

/// The name of the first main artist of the list, if it has one.
pub open spec fn first_main_name(artists: Seq<ArtistView>) -> Option<Seq<char>>
    decreases artists.len(),
{
    if artists.len() == 0 {
        None
    } else if artists[0].main {
        Some(artists[0].name)
    } else {
        first_main_name(artists.drop_first())
    }
}

/// The artist that is named for an item: the first main artist of a track,
/// else its first artist; the unknown artist for a track without artists and
/// for an item that is no track (`None`).
pub open spec fn display_artist(artists: Option<Seq<ArtistView>>) -> Seq<char> {
    match artists {
        None => UNKNOWN_ARTIST@,
        Some(list) => match first_main_name(list) {
            Some(name) => name,
            None => if list.len() > 0 {
                list[0].name
            } else {
                UNKNOWN_ARTIST@
            },
        },
    }
}

/// The cover that is linked: the first, or none.
pub open spec fn display_cover(covers: Seq<String>) -> Seq<char> {
    if covers.len() > 0 {
        covers[0]@
    } else {
        Seq::empty()
    }
}

/// The first main artist is the main artist before whom the list holds no
/// other; a list without a main artist has none.
pub proof fn lemma_first_main_is_least(artists: Seq<ArtistView>)
    ensures
        match first_main_name(artists) {
            Some(name) => exists|i: int|
                0 <= i < artists.len() && (#[trigger] artists[i]).main && artists[i].name == name
                    && forall|j: int| 0 <= j < i ==> !(#[trigger] artists[j]).main,
            None => forall|j: int| 0 <= j < artists.len() ==> !(#[trigger] artists[j]).main,
        },
    decreases artists.len(),
{
    if artists.len() > 0 && !artists[0].main {
        let rest = artists.drop_first();
        lemma_first_main_is_least(rest);
        match first_main_name(rest) {
            Some(name) => {
                let i = choose|i: int|
                    0 <= i < rest.len() && (#[trigger] rest[i]).main && rest[i].name == name
                        && forall|j: int| 0 <= j < i ==> !(#[trigger] rest[j]).main;
                assert forall|j: int| 0 <= j < i + 1 implies !(#[trigger] artists[j]).main by {
                    if j > 0 {
                        assert(artists[j] == rest[j - 1]);
                    }
                }
            },
            None => {
                assert forall|j: int| 0 <= j < artists.len() implies !(
                #[trigger] artists[j]).main by {
                    if j > 0 {
                        assert(artists[j] == rest[j - 1]);
                    }
                }
            },
        }
    }
}

/// The metadata shown for an item that the engine has changed to. `artists`
/// holds the artists of a track in the track's order, and is `None` for an
/// item that is no track; `covers` holds the addresses of its covers.
pub fn track_metadata(artists: Option<&Vec<TrackArtist>>, title: String, covers: &Vec<String>) -> (m:
    MusicMetadata)
    ensures
        m@ == (MetadataView {
            artist: display_artist(
                match artists {
                    Some(list) => Some(artist_views(list@)),
                    None => None,
                },
            ),
            title: title@,
            artwork_url: display_cover(covers@),
        }),
{
    let artist = match artists {
        None => String::from_str(UNKNOWN_ARTIST),
        Some(list) => {
            let ghost all = artist_views(list@);
            let mut found: Option<usize> = None;
            let mut i: usize = 0;
            assert(all.skip(0) =~= all);
            while i < list.len() && found.is_none()
                invariant
                    i <= list.len(),
                    all == artist_views(list@),
                    found is None ==> first_main_name(all) == first_main_name(all.skip(i as int)),
                    found matches Some(k) ==> k < list.len() && first_main_name(all) == Some(
                        list@[k as int].name@,
                    ),
                decreases list.len() - i, found.is_none() as int,
            {
                assert(all.skip(i as int).drop_first() =~= all.skip(i + 1));
                if list[i].main {
                    found = Some(i);
                } else {
                    i = i + 1;
                }
            }
            match found {
                Some(k) => list[k].name.clone(),
                None => {
                    if list.len() > 0 {
                        list[0].name.clone()
                    } else {
                        String::from_str(UNKNOWN_ARTIST)
                    }
                },
            }
        },
    };
    let artwork_url = if covers.len() > 0 {
        covers[0].clone()
    } else {
        String::new()
    };
    MusicMetadata::new(artist, title, artwork_url)
}

} // verus!
