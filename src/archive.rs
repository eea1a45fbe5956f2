//! Where the scrobble archives of each user are kept.
use vstd::prelude::*;
use vstd::string::StringExecFns;

use crate::lastfm::ScrobbledTrack;

verus! {

/// What `deunicode::deunicode_with_tofu` makes of a text and a placeholder:
/// the text transliterated to ASCII, each character it cannot transliterate
/// replaced by the placeholder.
pub uninterp spec fn deunicode_with_tofu_of(s: Seq<char>, placeholder: Seq<char>) -> Seq<char>;

/// Relies on `deunicode::deunicode_with_tofu` to transliterate `s` to ASCII;
/// a text whose characters are all below U+007F comes back as it is.
#[verifier::external_body]
fn ascii_with_placeholder(s: &str, placeholder: &str) -> (r: String)
    ensures
        r@ == deunicode_with_tofu_of(s@, placeholder@),
        (forall|i: int| 0 <= i < s@.len() ==> (#[trigger] s@[i] as u32) < 0x7f) ==> r@ == s@,
{
    deunicode::deunicode_with_tofu(s, placeholder)
}

/// The name of the directory that holds the archives of `username`: its
/// ASCII transliteration, `_` for what has none, after a `user_` prefix.
pub open spec fn user_directory_name(username: Seq<char>) -> Seq<char> {
    "user_"@ + deunicode_with_tofu_of(username, "_"@)
}

/// Knows the root directory of all users' archives.
pub struct ScrobbleArchiveLocationManager {
    root_path: String,
}

impl ScrobbleArchiveLocationManager {
    /// The root directory.
    pub closed spec fn root(&self) -> Seq<char> {
        self.root_path@
    }

    /// A manager of the archives under `root_path`.
    pub fn new(root_path: String) -> (r: Self)
        ensures
            r.root() == root_path@,
    {
        ScrobbleArchiveLocationManager { root_path }
    }

    /// The root directory.
    pub fn root_path(&self) -> (r: &str)
        ensures
            r@ == self.root(),
    {
        self.root_path.as_str()
    }

    /// The name, under the root directory, of the directory that holds the
    /// archives of `username`.
    pub fn archive_directory_name_for_user(&self, username: &str) -> (r: String)
        ensures
            r@ == user_directory_name(username@),
    {
        let ascii_username = ascii_with_placeholder(username, "_");
        String::from_str("user_").concat(ascii_username.as_str())
    }
}

/// Knows the directory of one user's archives.
pub struct ScrobbleArchiveScanner {
    user_archive_directory_path: String,
}

impl ScrobbleArchiveScanner {
    /// The directory of the user's archives.
    pub closed spec fn directory(&self) -> Seq<char> {
        self.user_archive_directory_path@
    }

    /// A scanner of the archives in `user_archive_directory_path`.
    pub fn from_user_archive_path(user_archive_directory_path: String) -> (r: Self)
        ensures
            r.directory() == user_archive_directory_path@,
    {
        ScrobbleArchiveScanner { user_archive_directory_path }
    }

    /// The directory of the user's archives.
    pub fn user_archive_directory_path(&self) -> (r: &str)
        ensures
            r@ == self.directory(),
    {
        self.user_archive_directory_path.as_str()
    }
}

/// The digit character of `d`, for `d` below ten.
pub open spec fn digit_char(d: nat) -> char {
    seq!['0', '1', '2', '3', '4', '5', '6', '7', '8', '9'][d as int]
}

/// The decimal digits of `n`, without leading zeros.
pub open spec fn digits_of(n: nat) -> Seq<char>
    decreases n,
{
    if n < 10 {
        seq![digit_char(n)]
    } else {
        digits_of(n / 10).push(digit_char(n % 10))
    }
}

/// `n` written in decimal, after a `-` if it is negative.
pub open spec fn decimal_of(n: int) -> Seq<char> {
    if n < 0 {
        seq!['-'] + digits_of((-n) as nat)
    } else {
        digits_of(n as nat)
    }
}

/// Relies on the `Display` of `i64`, through `to_string`, to write `n` in
/// decimal.
#[verifier::external_body]
fn decimal_text(n: i64) -> (r: String)
    ensures
        r@ == decimal_of(n as int),
{
    n.to_string()
}

/// What an archive holds: whose scrobbles, from when to when, and when it was
/// made. Instants are seconds since the Unix epoch.
#[derive(Clone, Debug, PartialEq, Eq)]
pub struct ScrobbleArchiveMetadata {
    /// When the archive was made.
    pub archived_at: i64,
    /// The last.fm user whose scrobbles are archived.
    pub username: String,
    /// When the oldest archived scrobble was made.
    pub from: i64,
    /// When the most recent archived scrobble was made.
    pub to: i64,
}

/// A snapshot of a user's scrobbles: every scrobble between `from` and `to`
/// of the metadata.
#[derive(Clone, Debug, PartialEq, Eq)]
pub struct ScrobbleArchive {
    pub metadata: ScrobbleArchiveMetadata,
    /// The archived scrobbles.
    pub scrobbled_tracks: Vec<ScrobbledTrack>,
}

/// The file name of the archive of `username`'s scrobbles from `from` to `to`.
pub open spec fn archive_file_name(username: Seq<char>, from: int, to: int) -> Seq<char> {
    "scrobble-archive_user-"@ + deunicode_with_tofu_of(username, "_"@) + "_from-"@
        + decimal_of(from) + "_to-"@ + decimal_of(to) + ".json"@
}

impl ScrobbleArchive {
    /// The name of the file that holds this archive: the user's name
    /// transliterated to ASCII and the two ends of the time range.
    pub fn generate_file_name(&self) -> (r: String)
        ensures
            r@ == archive_file_name(
                self.metadata.username@,
                self.metadata.from as int,
                self.metadata.to as int,
            ),
    {
        let username_ascii = ascii_with_placeholder(self.metadata.username.as_str(), "_");
        let from = decimal_text(self.metadata.from);
        let to = decimal_text(self.metadata.to);
        let r = String::from_str("scrobble-archive_user-").concat(username_ascii.as_str()).concat(
            "_from-",
        ).concat(from.as_str()).concat("_to-").concat(to.as_str()).concat(".json");
        r
    }
}

} // verus!
