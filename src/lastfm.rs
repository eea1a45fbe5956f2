//! Identifiers and image sizes of the last.fm scrobble history, and the
//! error answer of its API.
use vstd::prelude::*;
use vstd::string::StringExecFns;

verus! {

/// Whether two texts are the same.
fn same_text(a: &str, b: &str) -> (r: bool)
    ensures
        r == (a@ == b@),
{
    String::from_str(a) == String::from_str(b)
}

/// The size class of an image.
#[derive(Clone, Copy, Debug, PartialEq, Eq, Structural, Ord)]
pub enum ImageSize {
    Small,
    Medium,
    Large,
    ExtraLarge,
}

/// The place of a size class in the order small, medium, large, extra large.
pub open spec fn image_size_rank(s: ImageSize) -> int {
    match s {
        ImageSize::Small => 0,
        ImageSize::Medium => 1,
        ImageSize::Large => 2,
        ImageSize::ExtraLarge => 3,
    }
}

/// The name of a size class in the API's text.
pub open spec fn image_size_name(s: ImageSize) -> Seq<char> {
    match s {
        ImageSize::Small => "small"@,
        ImageSize::Medium => "medium"@,
        ImageSize::Large => "large"@,
        ImageSize::ExtraLarge => "extralarge"@,
    }
}

/// The comparison of two ranks.
pub open spec fn compare_ranks(a: int, b: int) -> std::cmp::Ordering {
    if a < b {
        std::cmp::Ordering::Less
    } else if a == b {
        std::cmp::Ordering::Equal
    } else {
        std::cmp::Ordering::Greater
    }
}

/// A text that names no size class.
#[derive(Debug)]
pub struct ImageSizeParseError(String);

impl ImageSizeParseError {
    /// The text that was not recognised.
    pub closed spec fn text(&self) -> Seq<char> {
        self.0@
    }

    /// The text that was not recognised.
    pub fn unrecognized(&self) -> (r: &str)
        ensures
            r@ == self.text(),
    {
        self.0.as_str()
    }
}

impl ImageSize {
    /// The size class's name in the API's text.
    pub fn as_str(&self) -> (r: &'static str)
        ensures
            r@ == image_size_name(*self),
    {
        match self {
            ImageSize::Small => "small",
            ImageSize::Medium => "medium",
            ImageSize::Large => "large",
            ImageSize::ExtraLarge => "extralarge",
        }
    }

    /// The size class that `s` names; an error that carries `s` if it names
    /// none.
    pub fn parse(s: &str) -> (r: Result<ImageSize, ImageSizeParseError>)
        ensures
            match r {
                Ok(v) => image_size_name(v) == s@,
                Err(e) => e.text() == s@ && forall|v: ImageSize| image_size_name(v) != s@,
            },
    {
        if same_text(s, "small") {
            Ok(ImageSize::Small)
        } else if same_text(s, "medium") {
            Ok(ImageSize::Medium)
        } else if same_text(s, "large") {
            Ok(ImageSize::Large)
        } else if same_text(s, "extralarge") {
            Ok(ImageSize::ExtraLarge)
        } else {
            let r = Err(ImageSizeParseError(String::from_str(s)));
            assert forall|v: ImageSize| image_size_name(v) != s@ by {
                match v {
                    ImageSize::Small => {},
                    ImageSize::Medium => {},
                    ImageSize::Large => {},
                    ImageSize::ExtraLarge => {},
                }
            }
            r
        }
    }

    fn rank(&self) -> (r: u8)
        ensures
            r as int == image_size_rank(*self),
    {
        match self {
            ImageSize::Small => 0,
            ImageSize::Medium => 1,
            ImageSize::Large => 2,
            ImageSize::ExtraLarge => 3,
        }
    }

    /// Orders size classes from small to extra large.
    pub fn compare(&self, other: &ImageSize) -> (r: std::cmp::Ordering)
        ensures
            r == compare_ranks(image_size_rank(*self), image_size_rank(*other)),
    {
        let a = self.rank();
        let b = other.rank();
        if a < b {
            std::cmp::Ordering::Less
        } else if a == b {
            std::cmp::Ordering::Equal
        } else {
            std::cmp::Ordering::Greater
        }
    }
}

impl PartialOrd for ImageSize {
    fn partial_cmp(&self, other: &ImageSize) -> (r: Option<std::cmp::Ordering>) {
        Some(self.compare(other))
    }
}

impl vstd::std_specs::cmp::PartialOrdSpecImpl for ImageSize {
    open spec fn obeys_partial_cmp_spec() -> bool {
        true
    }

    open spec fn partial_cmp_spec(&self, other: &ImageSize) -> Option<std::cmp::Ordering> {
        Some(compare_ranks(image_size_rank(*self), image_size_rank(*other)))
    }
}

/// The kinds of MusicBrainz entity that the scrobble history refers to.
#[derive(Clone, Copy, Debug, PartialEq, Eq, Structural)]
pub enum MusicBrainzEntityType {
    Artist,
    Album,
    Track,
}

/// The name of an entity kind in the API's text.
pub open spec fn entity_type_name(t: MusicBrainzEntityType) -> Seq<char> {
    match t {
        MusicBrainzEntityType::Artist => "artist"@,
        MusicBrainzEntityType::Album => "album"@,
        MusicBrainzEntityType::Track => "track"@,
    }
}

/// A text that names no entity kind.
#[derive(Debug)]
pub struct MusicBrainzEntityTypeParseError(String);

impl MusicBrainzEntityTypeParseError {
    /// The text that was not recognised.
    pub closed spec fn text(&self) -> Seq<char> {
        self.0@
    }

    /// The text that was not recognised.
    pub fn unrecognized(&self) -> (r: &str)
        ensures
            r@ == self.text(),
    {
        self.0.as_str()
    }
}

impl MusicBrainzEntityType {
    /// The entity kind's name in the API's text.
    pub fn as_str(&self) -> (r: &'static str)
        ensures
            r@ == entity_type_name(*self),
    {
        match self {
            MusicBrainzEntityType::Artist => "artist",
            MusicBrainzEntityType::Album => "album",
            MusicBrainzEntityType::Track => "track",
        }
    }

    /// The entity kind that `s` names; an error that carries `s` if it names
    /// none.
    pub fn parse(s: &str) -> (r: Result<MusicBrainzEntityType, MusicBrainzEntityTypeParseError>)
        ensures
            match r {
                Ok(v) => entity_type_name(v) == s@,
                Err(e) => e.text() == s@ && forall|v: MusicBrainzEntityType|
                    entity_type_name(v) != s@,
            },
    {
        if same_text(s, "artist") {
            Ok(MusicBrainzEntityType::Artist)
        } else if same_text(s, "album") {
            Ok(MusicBrainzEntityType::Album)
        } else if same_text(s, "track") {
            Ok(MusicBrainzEntityType::Track)
        } else {
            let r = Err(MusicBrainzEntityTypeParseError(String::from_str(s)));
            assert forall|v: MusicBrainzEntityType| entity_type_name(v) != s@ by {
                match v {
                    MusicBrainzEntityType::Artist => {},
                    MusicBrainzEntityType::Album => {},
                    MusicBrainzEntityType::Track => {},
                }
            }
            r
        }
    }
}

/// Whether `id` looks like a MusicBrainz identifier at a glance: 36 bytes
/// long in UTF-8, the length of the hyphenated form of a UUID. Whether the
/// identifier exists is not looked up.
pub open spec fn is_musicbrainz_id_shaped(id: Seq<char>) -> bool {
    vstd::utf8::encode_utf8(id).len() == 36
}

/// Whether `id` looks like a MusicBrainz identifier at a glance.
pub fn is_ok_musicbrainz_id(id: &str) -> (r: bool)
    ensures
        r == is_musicbrainz_id_shaped(id@),
{
    id.as_bytes().len() == 36
}

/// A text that is not shaped like a MusicBrainz identifier.
#[derive(Debug)]
pub struct InvalidMusicBrainzId(String);

impl InvalidMusicBrainzId {
    /// The text that was refused.
    pub closed spec fn text(&self) -> Seq<char> {
        self.0@
    }

    /// The text that was refused.
    pub fn invalid_id(&self) -> (r: &str)
        ensures
            r@ == self.text(),
    {
        self.0.as_str()
    }
}

/// A MusicBrainz identifier together with the kind of entity it names.
#[derive(Clone, Debug, PartialEq, Eq)]
pub struct MusicBrainzId {
    entity_type: MusicBrainzEntityType,
    mbid: String,
}

impl MusicBrainzId {
    /// The kind of entity named.
    pub closed spec fn kind(&self) -> MusicBrainzEntityType {
        self.entity_type
    }

    /// The identifier's text.
    pub closed spec fn text(&self) -> Seq<char> {
        self.mbid@
    }

    /// `mbid` as an identifier of kind `entity_type`, if it is shaped like
    /// one; else an error that carries it.
    fn with_kind(entity_type: MusicBrainzEntityType, mbid: String) -> (r: Result<
        Self,
        InvalidMusicBrainzId,
    >)
        ensures
            r is Ok <==> is_musicbrainz_id_shaped(mbid@),
            r matches Ok(v) ==> v.kind() == entity_type && v.text() == mbid@,
            r matches Err(e) ==> e.text() == mbid@,
    {
        if !is_ok_musicbrainz_id(mbid.as_str()) {
            return Err(InvalidMusicBrainzId(mbid));
        }
        Ok(MusicBrainzId { entity_type, mbid })
    }

    /// An artist identifier.
    pub fn new_artist_id(artist_mbid: String) -> (r: Result<Self, InvalidMusicBrainzId>)
        ensures
            r is Ok <==> is_musicbrainz_id_shaped(artist_mbid@),
            r matches Ok(v) ==> v.kind() == MusicBrainzEntityType::Artist && v.text()
                == artist_mbid@,
            r matches Err(e) ==> e.text() == artist_mbid@,
    {
        Self::with_kind(MusicBrainzEntityType::Artist, artist_mbid)
    }

    /// An album identifier.
    pub fn new_album_id(album_mbid: String) -> (r: Result<Self, InvalidMusicBrainzId>)
        ensures
            r is Ok <==> is_musicbrainz_id_shaped(album_mbid@),
            r matches Ok(v) ==> v.kind() == MusicBrainzEntityType::Album && v.text()
                == album_mbid@,
            r matches Err(e) ==> e.text() == album_mbid@,
    {
        Self::with_kind(MusicBrainzEntityType::Album, album_mbid)
    }

    /// A track identifier.
    pub fn new_track_id(track_mbid: String) -> (r: Result<Self, InvalidMusicBrainzId>)
        ensures
            r is Ok <==> is_musicbrainz_id_shaped(track_mbid@),
            r matches Ok(v) ==> v.kind() == MusicBrainzEntityType::Track && v.text()
                == track_mbid@,
            r matches Err(e) ==> e.text() == track_mbid@,
    {
        Self::with_kind(MusicBrainzEntityType::Track, track_mbid)
    }

    /// The kind of entity named.
    pub fn entity_type(&self) -> (r: MusicBrainzEntityType)
        ensures
            r == self.kind(),
    {
        self.entity_type
    }

    /// The identifier's text.
    pub fn mbid(&self) -> (r: &str)
        ensures
            r@ == self.text(),
    {
        self.mbid.as_str()
    }
}

/// An album as the scrobble history names it.
#[derive(Clone, Debug, PartialEq, Eq)]
pub struct Album {
    pub name: String,
    pub mbid: Option<MusicBrainzId>,
}

/// The answer of the API when a request fails.
#[derive(Clone, Debug, PartialEq, Eq)]
pub struct LastFmApiErrorResponse {
    pub message: Option<String>,
    pub error: i32,
}

/// An image of a track or an artist. The URL is kept as its text.
#[derive(Clone, Debug, PartialEq, Eq)]
pub struct Image {
    pub size: ImageSize,
    pub url: String,
}

/// An artist as the scrobble history names it.
#[derive(Clone, Debug, PartialEq, Eq)]
pub struct Artist {
    pub name: String,
    pub mbid: Option<MusicBrainzId>,
    pub images: Vec<Image>,
}

/// One scrobble: a track and when it was played.
#[derive(Clone, Debug, PartialEq, Eq)]
pub struct ScrobbledTrack {
    /// Track name.
    pub track_name: String,
    /// MusicBrainz identifier of the track, if any.
    pub track_mbid: Option<MusicBrainzId>,
    /// The track's last.fm page, as the text of its URL.
    pub track_last_fm_url: String,
    /// Images of the track.
    pub track_images: Vec<Image>,
    /// Whether the track can be streamed on last.fm.
    pub is_track_streamable: bool,
    /// Artist information.
    pub artist: Artist,
    /// Album information, if any.
    pub album: Option<Album>,
    /// When the track was scrobbled, in seconds since the Unix epoch.
    pub scrobbled_at: i64,
}

/// One page of a user's scrobble history.
#[derive(Clone, Debug, PartialEq, Eq)]
pub struct UserRecentTracks {
    pub username: String,
    pub current_page: usize,
    pub total_pages: usize,
    pub scrobbles_per_page: usize,
    pub total_scrobbles: usize,
    /// Scrobbles on this page.
    pub scrobbled_tracks: Vec<ScrobbledTrack>,
}

/// What a request for a page of scrobble history asks for.
#[derive(Clone, Debug, PartialEq, Eq)]
pub struct UserRecentTracksOptions {
    /// How many scrobbles one page holds: at most 200.
    pub results_per_page: usize,
    /// Which page to fetch, counting from 1.
    pub page_to_fetch: usize,
    /// Whether to ask for the extended form of each artist and the loved mark
    /// of each track.
    pub extended_data: bool,
    /// Only scrobbles at or after this instant, in seconds since the Unix
    /// epoch.
    pub from: Option<i64>,
    /// Only scrobbles before this instant, in seconds since the Unix epoch.
    pub to: Option<i64>,
}

impl Default for UserRecentTracksOptions {
    /// Full pages of extended data, from the first page, without a time
    /// range.
    fn default() -> (r: Self)
        ensures
            r.results_per_page == 200,
            r.page_to_fetch == 1,
            r.extended_data,
            r.from is None,
            r.to is None,
    {
        UserRecentTracksOptions {
            results_per_page: 200,
            page_to_fetch: 1,
            extended_data: true,
            from: None,
            to: None,
        }
    }
}

} // verus!
