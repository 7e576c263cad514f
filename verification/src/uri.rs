//! Addresses of the streaming service: `spotify:{kind}:{id}`, where the id
//! is a number of 128 bits in twenty-two digits of base 62.

use librespot_core::spotify_id::SpotifyAudioType;
use librespot_core::spotify_id::SpotifyId;
use vstd::prelude::*;
use vstd::string::*;

verus! {

/// The digits of an id.
pub const ID_DIGITS: usize = 22;

/// What kind of item an address names, as far as the player can play it.
#[derive(Clone, Copy, Debug, PartialEq, Eq, Hash, Structural)]
pub enum ItemKind {
    Track,
    Podcast,
    NonPlayable,
}

/// The item that an address names.
#[derive(Clone, Copy, Debug, PartialEq, Eq, Hash, Structural)]
pub struct ItemId {
    pub id: u128,
    pub kind: ItemKind,
}

/// The bytes of `spotify:`.
pub open spec fn scheme_bytes() -> Seq<u8> {
    seq![115u8, 112u8, 111u8, 116u8, 105u8, 102u8, 121u8, 58u8]
}

/// The bytes of `track`.
pub open spec fn track_bytes() -> Seq<u8> {
    seq![116u8, 114u8, 97u8, 99u8, 107u8]
}

/// The bytes of `episode`.
pub open spec fn episode_bytes() -> Seq<u8> {
    seq![101u8, 112u8, 105u8, 115u8, 111u8, 100u8, 101u8]
}

/// The value of a digit of base 62: `0` to `9`, then `a` to `z`, then `A` to
/// `Z`.
pub open spec fn digit62(b: u8) -> Option<int> {
    if 48 <= b <= 57 {
        Some(b - 48)
    } else if 97 <= b <= 122 {
        Some(b - 97 + 10)
    } else if 65 <= b <= 90 {
        Some(b - 65 + 36)
    } else {
        None
    }
}

/// What reading digits of base 62 from the left comes to.
pub enum Decoded {
    /// A byte is no digit.
    Invalid,
    /// The number left 128 bits before a byte that is no digit was met.
    TooLarge,
    /// The number.
    Value(int),
}

/// Reading `digits` from the left: the first byte that is no digit, or the
/// first digit with which the number leaves 128 bits, decides.
pub open spec fn decode62(digits: Seq<u8>) -> Decoded
    decreases digits.len(),
{
    if digits.len() == 0 {
        Decoded::Value(0)
    } else {
        match decode62(digits.drop_last()) {
            Decoded::Value(v) => match digit62(digits.last()) {
                Some(d) => if v * 62 + d > u128::MAX {
                    Decoded::TooLarge
                } else {
                    Decoded::Value(v * 62 + d)
                },
                None => Decoded::Invalid,
            },
            other => other,
        }
    }
}

/// A number that was read lies in 128 bits.
pub proof fn lemma_decoded_value_fits(digits: Seq<u8>)
    ensures
        decode62(digits) matches Decoded::Value(v) ==> 0 <= v <= u128::MAX,
    decreases digits.len(),
{
    if digits.len() > 0 {
        lemma_decoded_value_fits(digits.drop_last());
    }
}

/// The address has the shape `spotify:{kind}:{id}` with an id of twenty-two
/// bytes.
pub open spec fn well_shaped(bytes: Seq<u8>) -> bool {
    bytes.len() > 8 + ID_DIGITS && bytes.subrange(0, 8) == scheme_bytes() && bytes[bytes.len()
        - ID_DIGITS - 1] == 58u8
}

/// The bytes of the kind in a well-shaped address.
pub open spec fn kind_part(bytes: Seq<u8>) -> Seq<u8> {
    bytes.subrange(8, bytes.len() - ID_DIGITS - 1)
}

/// The bytes of the id in a well-shaped address.
pub open spec fn id_part(bytes: Seq<u8>) -> Seq<u8> {
    bytes.subrange(bytes.len() - ID_DIGITS, bytes.len() as int)
}

/// The kind that a name stands for.
pub open spec fn kind_named(name: Seq<u8>) -> ItemKind {
    if name == track_bytes() {
        ItemKind::Track
    } else if name == episode_bytes() {
        ItemKind::Podcast
    } else {
        ItemKind::NonPlayable
    }
}

/// The id of a well-shaped address is a number of more than 128 bits.
pub open spec fn id_too_large(bytes: Seq<u8>) -> bool {
    well_shaped(bytes) && decode62(id_part(bytes)) is TooLarge
}

/// The item that an address names; none where the address is not well
/// shaped, or where its id is no number of base 62 in 128 bits.
pub open spec fn parsed_uri(bytes: Seq<u8>) -> Option<ItemId> {
    if well_shaped(bytes) {
        match decode62(id_part(bytes)) {
            Decoded::Value(v) => Some(ItemId { id: v as u128, kind: kind_named(kind_part(bytes)) }),
            _ => None,
        }
    } else {
        None
    }
}

/// Calls `librespot_core::spotify_id::SpotifyId::from_uri`. The contract
/// states what the crate's source does with an address: it wants the prefix
/// `spotify:`, more than twenty-two bytes behind it and a colon before the
/// last twenty-two, reads those as digits of base 62 from the left, and takes
/// the kind from the name between the colons. Where the number leaves 128
/// bits the crate's arithmetic overflows; such an address is left out. Not
/// proved.
#[verifier::external_body]
fn spotify_id_from_uri(uri: &str) -> (item: Option<ItemId>)
    requires
        !id_too_large(uri.spec_bytes()),
    ensures
        item == parsed_uri(uri.spec_bytes()),
{
    match SpotifyId::from_uri(uri) {
        Ok(found) => Some(ItemId {
            id: found.id,
            kind: match found.audio_type {
                SpotifyAudioType::Track => ItemKind::Track,
                SpotifyAudioType::Podcast => ItemKind::Podcast,
                SpotifyAudioType::NonPlayable => ItemKind::NonPlayable,
            },
        }),
        Err(_) => None,
    }
}

enum Progress {
    Invalid,
    TooLarge,
    Value(u128),
}

impl Progress {
    spec fn decoded(self) -> Decoded {
        match self {
            Progress::Invalid => Decoded::Invalid,
            Progress::TooLarge => Decoded::TooLarge,
            Progress::Value(v) => Decoded::Value(v as int),
        }
    }
}

fn digit_value(b: u8) -> (d: Option<u128>)
    ensures
        match d {
            Some(v) => digit62(b) == Some(v as int),
            None => digit62(b).is_none(),
        },
{
    if 48 <= b && b <= 57 {
        Some((b - 48) as u128)
    } else if 97 <= b && b <= 122 {
        Some((b - 97 + 10) as u128)
    } else if 65 <= b && b <= 90 {
        Some((b - 65 + 36) as u128)
    } else {
        None
    }
}

fn has_shape(bytes: &[u8]) -> (b: bool)
    ensures
        b == well_shaped(bytes@),
{
    if bytes.len() <= 8 + ID_DIGITS {
        return false;
    }
    let prefixed = bytes[0] == 115 && bytes[1] == 112 && bytes[2] == 111 && bytes[3] == 116
        && bytes[4] == 105 && bytes[5] == 102 && bytes[6] == 121 && bytes[7] == 58;
    proof {
        if prefixed {
            assert(bytes@.subrange(0, 8) =~= scheme_bytes());
        } else {
            let head = bytes@.subrange(0, 8);
            assert(head[0] == bytes@[0] && head[1] == bytes@[1] && head[2] == bytes@[2] && head[3]
                == bytes@[3] && head[4] == bytes@[4] && head[5] == bytes@[5] && head[6]
                == bytes@[6] && head[7] == bytes@[7]);
        }
    }
    prefixed && bytes[bytes.len() - ID_DIGITS - 1] == 58
}

/// Whether the address is well shaped and its id a number of more than 128
/// bits. No such address names an item.
pub fn id_overflows(uri: &str) -> (b: bool)
    ensures
        b == id_too_large(uri.spec_bytes()),
{
    let bytes = uri.as_bytes();
    if !has_shape(bytes) {
        return false;
    }
    let start: usize = bytes.len() - ID_DIGITS;
    let ghost digits = id_part(bytes@);
    let mut progress = Progress::Value(0);
    let mut i: usize = 0;
    while i < ID_DIGITS
        invariant
            i <= ID_DIGITS,
            start + ID_DIGITS == bytes.len(),
            digits == id_part(bytes@),
            progress.decoded() == decode62(digits.take(i as int)),
        decreases ID_DIGITS - i,
    {
        assert(digits.take(i + 1).drop_last() =~= digits.take(i as int));
        progress = match progress {
            Progress::Value(v) => match digit_value(bytes[start + i]) {
                Some(d) => match v.checked_mul(62) {
                    Some(m) => match m.checked_add(d) {
                        Some(n) => Progress::Value(n),
                        None => Progress::TooLarge,
                    },
                    None => Progress::TooLarge,
                },
                None => Progress::Invalid,
            },
            Progress::Invalid => Progress::Invalid,
            Progress::TooLarge => Progress::TooLarge,
        };
        i = i + 1;
    }
    assert(digits.take(ID_DIGITS as int) =~= digits);
    match progress {
        Progress::TooLarge => true,
        _ => false,
    }
}

/// The item that an address names, or `None` where the address names none.
pub fn parse_uri(uri: &str) -> (item: Option<ItemId>)
    ensures
        item == parsed_uri(uri.spec_bytes()),
{
    if id_overflows(uri) {
        None
    } else {
        spotify_id_from_uri(uri)
    }
}

} // verus!
