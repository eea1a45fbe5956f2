use cancellation_token::archive::{
    ScrobbleArchive, ScrobbleArchiveLocationManager, ScrobbleArchiveMetadata,
    ScrobbleArchiveScanner,
};
use cancellation_token::lastfm::{
    is_ok_musicbrainz_id, ImageSize, MusicBrainzEntityType, MusicBrainzId,
    UserRecentTracksOptions,
};

const SAMPLE_MBID: &str = "5b11f4ce-a62d-471e-81fc-a69a8278c7da";

#[test]
fn image_sizes_parse_from_their_names() {
    assert_eq!(ImageSize::parse("small").unwrap(), ImageSize::Small);
    assert_eq!(ImageSize::parse("medium").unwrap(), ImageSize::Medium);
    assert_eq!(ImageSize::parse("large").unwrap(), ImageSize::Large);
    assert_eq!(ImageSize::parse("extralarge").unwrap(), ImageSize::ExtraLarge);
    assert_eq!(ImageSize::ExtraLarge.as_str(), "extralarge");
    assert_eq!(ImageSize::Small.as_str(), "small");
}

#[test]
fn unknown_image_size_is_refused() {
    let error = ImageSize::parse("huge").unwrap_err();
    assert_eq!(error.unrecognized(), "huge");
    assert!(ImageSize::parse("").is_err());
    assert!(ImageSize::parse("Small").is_err());
}

#[test]
fn image_sizes_are_ordered_by_size() {
    assert!(ImageSize::Small < ImageSize::Medium);
    assert!(ImageSize::Medium < ImageSize::Large);
    assert!(ImageSize::Large < ImageSize::ExtraLarge);
    assert!(ImageSize::ExtraLarge > ImageSize::Small);
    assert_eq!(ImageSize::Large.compare(&ImageSize::Large), std::cmp::Ordering::Equal);
    assert_eq!(ImageSize::Small.compare(&ImageSize::Large), std::cmp::Ordering::Less);
    assert_eq!(
        ImageSize::ExtraLarge.partial_cmp(&ImageSize::Medium),
        Some(std::cmp::Ordering::Greater)
    );
}

#[test]
fn entity_types_parse_from_their_names() {
    assert_eq!(MusicBrainzEntityType::parse("artist").unwrap(), MusicBrainzEntityType::Artist);
    assert_eq!(MusicBrainzEntityType::parse("album").unwrap(), MusicBrainzEntityType::Album);
    assert_eq!(MusicBrainzEntityType::parse("track").unwrap(), MusicBrainzEntityType::Track);
    assert_eq!(MusicBrainzEntityType::Album.as_str(), "album");
    let error = MusicBrainzEntityType::parse("label").unwrap_err();
    assert_eq!(error.unrecognized(), "label");
}

#[test]
fn musicbrainz_ids_are_checked_by_length() {
    assert!(is_ok_musicbrainz_id(SAMPLE_MBID));
    assert!(!is_ok_musicbrainz_id(""));
    assert!(!is_ok_musicbrainz_id(&SAMPLE_MBID[1..]));
    assert!(!is_ok_musicbrainz_id(&format!("{}0", SAMPLE_MBID)));
}

#[test]
fn musicbrainz_id_constructors_keep_kind_and_text() {
    let artist = MusicBrainzId::new_artist_id(SAMPLE_MBID.to_string()).unwrap();
    assert_eq!(artist.entity_type(), MusicBrainzEntityType::Artist);
    assert_eq!(artist.mbid(), SAMPLE_MBID);
    let album = MusicBrainzId::new_album_id(SAMPLE_MBID.to_string()).unwrap();
    assert_eq!(album.entity_type(), MusicBrainzEntityType::Album);
    let track = MusicBrainzId::new_track_id(SAMPLE_MBID.to_string()).unwrap();
    assert_eq!(track.entity_type(), MusicBrainzEntityType::Track);
    assert_eq!(track.mbid(), SAMPLE_MBID);
}

#[test]
fn invalid_musicbrainz_id_is_refused_with_its_text() {
    let error = MusicBrainzId::new_track_id("not-an-id".to_string()).unwrap_err();
    assert_eq!(error.invalid_id(), "not-an-id");
    assert!(MusicBrainzId::new_artist_id(String::new()).is_err());
    assert!(MusicBrainzId::new_album_id("x".repeat(37)).is_err());
}

#[test]
fn archive_directory_name_is_ascii_with_prefix() {
    let manager = ScrobbleArchiveLocationManager::new("/data/archives".to_string());
    assert_eq!(manager.root_path(), "/data/archives");
    assert_eq!(manager.archive_directory_name_for_user("alice_01"), "user_alice_01");
    assert_eq!(manager.archive_directory_name_for_user("Zoë"), "user_Zoe");
}

#[test]
fn scanner_keeps_its_directory() {
    let scanner = ScrobbleArchiveScanner::from_user_archive_path("/data/user_a".to_string());
    assert_eq!(scanner.user_archive_directory_path(), "/data/user_a");
}

#[test]
fn archive_file_name_names_user_and_range() {
    let archive = ScrobbleArchive {
        metadata: ScrobbleArchiveMetadata {
            archived_at: 1_700_000_000,
            username: "alice".to_string(),
            from: 1_600_000_000,
            to: 1_650_000_123,
        },
        scrobbled_tracks: Vec::new(),
    };
    assert_eq!(
        archive.generate_file_name(),
        "scrobble-archive_user-alice_from-1600000000_to-1650000123.json"
    );
}

#[test]
fn archive_file_name_transliterates_and_signs() {
    let archive = ScrobbleArchive {
        metadata: ScrobbleArchiveMetadata {
            archived_at: 0,
            username: "Zoë".to_string(),
            from: -5,
            to: 0,
        },
        scrobbled_tracks: Vec::new(),
    };
    assert_eq!(
        archive.generate_file_name(),
        "scrobble-archive_user-Zoe_from--5_to-0.json"
    );
}

#[test]
fn default_request_options() {
    let options = UserRecentTracksOptions::default();
    assert_eq!(options.results_per_page, 200);
    assert_eq!(options.page_to_fetch, 1);
    assert!(options.extended_data);
    assert_eq!(options.from, None);
    assert_eq!(options.to, None);
}
