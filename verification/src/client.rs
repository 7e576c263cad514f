//! Getting a session with the streaming service: where the credentials come
//! from, in which order the sources are tried, and the identifier under which
//! the device announces itself while it waits to be given credentials.

use sha1::Digest;
use sha1::Sha1;
use vstd::prelude::*;
use vstd::string::*;

verus! {

/// The directory in which credentials are cached, unless another is given.
pub const DEFAULT_CACHE_FOLDER: &'static str = "cache";

/// The name under which the device announces itself while it has no
/// credentials.
pub const SETUP_DEVICE_NAME: &'static str = "Care Chords Setup";

/// The SHA-1 digest of a byte string, as `sha1::Sha1::digest` computes it.
pub uninterp spec fn sha1_of(data: Seq<u8>) -> Seq<u8>;

/// The sixteen lower-case hexadecimal digits.
pub open spec fn hex_digits() -> Seq<char> {
    seq!['0', '1', '2', '3', '4', '5', '6', '7', '8', '9', 'a', 'b', 'c', 'd', 'e', 'f']
}

/// The lower-case hexadecimal text of a byte string: two digits for each
/// byte, the high half first.
pub open spec fn hex_lower(data: Seq<u8>) -> Seq<char> {
    Seq::new(
        2 * data.len(),
        |i: int|
            if i % 2 == 0 {
                hex_digits()[data[i / 2] as int / 16]
            } else {
                hex_digits()[data[i / 2] as int % 16]
            },
    )
}

/// Calls `sha1::Sha1::digest` (the `Digest` trait's one-shot function). The
/// contract gives the digest a name and states its length, which the crate
/// fixes at twenty bytes; that the bytes are those of SHA-1 is not proved.
#[verifier::external_body]
fn sha1_digest(data: &[u8]) -> (digest: Vec<u8>)
    ensures
        digest@ == sha1_of(data@),
        digest@.len() == 20,
{
    Sha1::digest(data).to_vec()
}

/// Calls `hex::encode`. The contract states what the crate documents: every
/// byte becomes two lower-case hexadecimal digits, in order. Not proved.
#[verifier::external_body]
fn hex_encode(data: &[u8]) -> (text: String)
    ensures
        text@ == hex_lower(data@),
{
    hex::encode(data)
}

/// The identifier of a device from the digest of its name: the digest in
/// lower-case hexadecimal.
pub fn device_id_from_digest(digest: &[u8]) -> (id: String)
    ensures
        id@ == hex_lower(digest@),
        id@.len() == 2 * digest@.len(),
{
    hex_encode(digest)
}

/// The identifier of the device that announces itself as `name`: the SHA-1
/// digest of the name's bytes in lower-case hexadecimal, forty digits.
pub fn device_id(name: &str) -> (id: String)
    ensures
        id@ == hex_lower(sha1_of(name.spec_bytes())),
        id@.len() == 40,
{
    let digest = sha1_digest(name.as_bytes());
    device_id_from_digest(digest.as_slice())
}

/// A client that has no session yet.
#[derive(Clone, Debug, PartialEq, Eq)]
pub struct UnauthenticatedSpotifyClient {
    cache_folder: String,
}

impl UnauthenticatedSpotifyClient {
    /// A client that caches its credentials in the default folder.
    pub fn new() -> (c: Self)
        ensures
            c.spec_cache_folder() == DEFAULT_CACHE_FOLDER@,
    {
        UnauthenticatedSpotifyClient { cache_folder: String::from_str(DEFAULT_CACHE_FOLDER) }
    }

    /// The folder in which this client caches its credentials.
    pub closed spec fn spec_cache_folder(&self) -> Seq<char> {
        self.cache_folder@
    }

    /// The folder in which this client caches its credentials.
    pub fn cache_folder(&self) -> (f: &String)
        ensures
            f@ == self.spec_cache_folder(),
    {
        &self.cache_folder
    }
}

/// Where credentials were taken from.
#[derive(Clone, Copy, Debug, PartialEq, Eq, Structural)]
pub enum CredentialSource {
    Cache,
    Discovery,
}

/// Why no session could be had.
#[derive(Clone, Copy, Debug, PartialEq, Eq, Structural)]
pub enum AuthFailure {
    /// Neither the cache nor discovery gave credentials.
    NoCredentials,
    /// The service refused the credentials.
    Rejected(CredentialSource),
}

/// Where the search for a session stands.
#[derive(Clone, Copy, Debug, PartialEq, Eq, Structural)]
pub enum AuthState {
    /// The cached credentials are being read.
    ReadingCache,
    /// The device waits to be given credentials on the local network.
    Discovering,
    /// A session is being opened with credentials of this source.
    Connecting(CredentialSource),
    /// A session is open.
    Authenticated,
    /// The search has failed.
    Failed(AuthFailure),
}

/// What the driver is to do next.
#[derive(Clone, Copy, Debug, PartialEq, Eq, Structural)]
pub enum AuthAction {
    ReadCache,
    Discover,
    Connect(CredentialSource),
    Finish,
    GiveUp(AuthFailure),
}

/// What a state asks of the driver.
pub open spec fn auth_action(s: AuthState) -> AuthAction {
    match s {
        AuthState::ReadingCache => AuthAction::ReadCache,
        AuthState::Discovering => AuthAction::Discover,
        AuthState::Connecting(source) => AuthAction::Connect(source),
        AuthState::Authenticated => AuthAction::Finish,
        AuthState::Failed(f) => AuthAction::GiveUp(f),
    }
}

/// The state after the driver reports whether what the state asked for
/// succeeded: cached credentials are used where they can be read, discovery
/// is the fallback, and the credentials of either source open the session.
pub open spec fn auth_next(s: AuthState, succeeded: bool) -> AuthState {
    match s {
        AuthState::ReadingCache => if succeeded {
            AuthState::Connecting(CredentialSource::Cache)
        } else {
            AuthState::Discovering
        },
        AuthState::Discovering => if succeeded {
            AuthState::Connecting(CredentialSource::Discovery)
        } else {
            AuthState::Failed(AuthFailure::NoCredentials)
        },
        AuthState::Connecting(source) => if succeeded {
            AuthState::Authenticated
        } else {
            AuthState::Failed(AuthFailure::Rejected(source))
        },
        AuthState::Authenticated => AuthState::Authenticated,
        AuthState::Failed(f) => AuthState::Failed(f),
    }
}

impl AuthState {
    /// The search begins with the cache.
    pub fn start() -> (s: Self)
        ensures
            s == AuthState::ReadingCache,
    {
        AuthState::ReadingCache
    }

    /// What the driver is to do in this state.
    pub fn action(&self) -> (a: AuthAction)
        ensures
            a == auth_action(*self),
    {
        match *self {
            AuthState::ReadingCache => AuthAction::ReadCache,
            AuthState::Discovering => AuthAction::Discover,
            AuthState::Connecting(source) => AuthAction::Connect(source),
            AuthState::Authenticated => AuthAction::Finish,
            AuthState::Failed(f) => AuthAction::GiveUp(f),
        }
    }

    /// The state after the driver has done what this state asked for, with
    /// or without success.
    pub fn next(&self, succeeded: bool) -> (s: Self)
        ensures
            s == auth_next(*self, succeeded),
    {
        match *self {
            AuthState::ReadingCache => if succeeded {
                AuthState::Connecting(CredentialSource::Cache)
            } else {
                AuthState::Discovering
            },
            AuthState::Discovering => if succeeded {
                AuthState::Connecting(CredentialSource::Discovery)
            } else {
                AuthState::Failed(AuthFailure::NoCredentials)
            },
            AuthState::Connecting(source) => if succeeded {
                AuthState::Authenticated
            } else {
                AuthState::Failed(AuthFailure::Rejected(source))
            },
            AuthState::Authenticated => AuthState::Authenticated,
            AuthState::Failed(f) => AuthState::Failed(f),
        }
    }
}

/// The search for a session ends: after three reports at the latest it has
/// either a session or a failure, and neither changes any more. It ends with
/// a session exactly where credentials were found, in the cache or else by
/// discovery, and the service took them.
pub proof fn lemma_search_ends(first: bool, second: bool, third: bool, later: bool)
    ensures
        ({
            let end = auth_next(
                auth_next(auth_next(AuthState::ReadingCache, first), second),
                third,
            );
            &&& end is Authenticated || end is Failed
            &&& auth_next(end, later) == end
            &&& end is Authenticated <==> second && (first || third)
        }),
{
}

} // verus!
