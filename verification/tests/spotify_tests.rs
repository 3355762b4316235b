use vector_ingest::spotify::{
    build_artist_documents, Album, ArtistOverviewResponse, Concert, Concerts, Discography,
    DiscographyItem, Goods, Single,
};
use vector_ingest::spotify_library as library;
use vector_ingest::spotify_library::{batch_ids, join_ids};
use vector_ingest::timestamp::Timestamp;

fn disc_item(id: &str, name: &str) -> DiscographyItem {
    DiscographyItem {
        id: id.to_string(),
        item_type: "album".to_string(),
        name: name.to_string(),
        label: "Label".to_string(),
        track_count: 12,
    }
}

fn overview() -> ArtistOverviewResponse {
    ArtistOverviewResponse {
        id: "artist-1".to_string(),
        name: "The Band".to_string(),
        biography: "Formed long ago.".to_string(),
        discography: Discography {
            albums: Album { items: vec![disc_item("al-1", "First")] },
            singles: Single { items: vec![disc_item("si-1", "Only"), disc_item("si-2", "Again")] },
        },
        goods: Goods {
            concerts: Concerts {
                items: vec![Concert {
                    id: "co-1".to_string(),
                    item_type: "concert".to_string(),
                    date: "2024-06-01".to_string(),
                    venue: "Hall".to_string(),
                    location: "Town".to_string(),
                }],
            },
        },
    }
}

#[test]
fn discography_item_serializes_with_camel_case_track_count() {
    let json = disc_item("d1", "N").to_json();
    assert_eq!(
        json,
        "{\"id\":\"d1\",\"type\":\"album\",\"name\":\"N\",\"label\":\"Label\",\"trackCount\":12}"
    );
}

#[test]
fn concert_serializes_its_fields_in_order() {
    let json = overview().goods.concerts.items[0].to_json();
    assert_eq!(
        json,
        "{\"id\":\"co-1\",\"type\":\"concert\",\"date\":\"2024-06-01\",\
         \"venue\":\"Hall\",\"location\":\"Town\"}"
    );
}

#[test]
fn artist_overview_yields_biography_then_concerts_albums_singles() {
    let docs = build_artist_documents(&overview());
    assert_eq!(docs.len(), 5);
    assert_eq!(docs[0].id, "biography-artist-1");
    assert_eq!(docs[0].metadata, "\"The Band\"");
    assert_eq!(docs[0].fragments, vec!["Formed long ago."]);
    assert_eq!(docs[1].id, "concert-co-1");
    assert_eq!(docs[1].fragments.len(), 1);
    assert_eq!(docs[1].fragments[0], overview().goods.concerts.items[0].to_json());
    assert_eq!(docs[2].id, "album-al-1");
    assert_eq!(docs[3].id, "single-si-1");
    assert_eq!(docs[4].id, "single-si-2");
    for d in &docs {
        assert_eq!(d.metadata, "\"The Band\"");
    }
}

fn ts() -> Timestamp {
    Timestamp { year: 2023, month: 5, day: 6, hour: 7, minute: 8, second: 9, micros: 0 }
}

fn album() -> library::Album {
    library::Album {
        album_type: "album".to_string(),
        total_tracks: 2,
        id: "alb-9".to_string(),
        name: "Record".to_string(),
        release_date: "2001-02-03".to_string(),
        release_date_precision: "day".to_string(),
        artists: vec![library::Artist {
            id: "ar-1".to_string(),
            name: "Singer".to_string(),
            item_type: "artist".to_string(),
        }],
        tracks: library::Tracks {
            total: 1,
            items: vec![library::AlbumTrack {
                id: "tr-1".to_string(),
                name: "Song".to_string(),
                duration_ms: 123456,
                explicit: false,
                track_number: 1,
            }],
        },
        genres: vec!["rock".to_string()],
        label: "L".to_string(),
        popularity: 57,
    }
}

#[test]
fn album_track_serializes_numbers_and_booleans() {
    let json = album().tracks.items[0].to_json();
    assert_eq!(
        json,
        "{\"id\":\"tr-1\",\"name\":\"Song\",\"duration_ms\":123456,\
         \"explicit\":false,\"track_number\":1}"
    );
}

#[test]
fn track_documents_nest_the_track_as_a_string() {
    let item = library::AlbumItem { added_to_my_library: ts(), album: album() };
    let docs = item.tracks();
    assert_eq!(docs.len(), 1);
    assert_eq!(docs[0].id, "tr-1");
    let expected = "{\"added_to_my_library\":\"2023-05-06T07:08:09.000000\",\
                    \"album\":\"Record\",\"artists\":[\"Singer\"],\
                    \"release_date\":\"2001-02-03\",\
                    \"track\":\"{\\\"id\\\":\\\"tr-1\\\",\\\"name\\\":\\\"Song\\\",\
                    \\\"duration_ms\\\":123456,\\\"explicit\\\":false,\
                    \\\"track_number\\\":1}\"}";
    assert_eq!(docs[0].metadata, expected);
    assert_eq!(docs[0].fragments, vec![expected.to_string()]);
}

#[test]
fn album_document_skips_the_track_listing() {
    let item = library::AlbumItem { added_to_my_library: ts(), album: album() };
    let d = item.document();
    assert_eq!(d.id, "alb-9");
    let expected = "{\"added_at\":\"2023-05-06T07:08:09.000000\",\"album\":{\
                    \"album_type\":\"album\",\"total_tracks\":2,\"id\":\"alb-9\",\
                    \"name\":\"Record\",\"release_date\":\"2001-02-03\",\
                    \"release_date_precision\":\"day\",\
                    \"artists\":[{\"id\":\"ar-1\",\"name\":\"Singer\",\"type\":\"artist\"}],\
                    \"genres\":[\"rock\"],\"label\":\"L\",\"popularity\":57}}";
    assert_eq!(d.metadata, expected);
    assert_eq!(d.fragments, vec![expected.to_string()]);
}

#[test]
fn artist_document_pairs_the_record_with_its_date() {
    let artist = library::ArtistItem {
        id: "ar-1".to_string(),
        name: "Singer".to_string(),
        genres: vec!["rock".to_string(), "pop".to_string()],
        popularity: 88,
        item_type: "artist".to_string(),
    };
    let d = artist.document(&ts());
    assert_eq!(d.id, "ar-1");
    let expected = "{\"added_to_my_library\":\"2023-05-06T07:08:09.000000\",\
                    \"item\":\"{\\\"id\\\":\\\"ar-1\\\",\\\"name\\\":\\\"Singer\\\",\
                    \\\"genres\\\":[\\\"rock\\\",\\\"pop\\\"],\\\"popularity\\\":88,\
                    \\\"type\\\":\\\"artist\\\"}\"}";
    assert_eq!(d.metadata, expected);
}

#[test]
fn ids_batch_in_fifties() {
    let ids: Vec<String> = (0..53).map(|i| format!("id-{}", i)).collect();
    let batches = batch_ids(&ids, 50);
    assert_eq!(batches.len(), 2);
    assert_eq!(batches[0].len(), 50);
    assert_eq!(batches[1].len(), 3);
    assert_eq!(batches[0][0], "id-0");
    assert_eq!(batches[1][2], "id-52");
    assert!(batch_ids(&Vec::new(), 50).is_empty());
    assert_eq!(batch_ids(&ids[..50].to_vec(), 50).len(), 1);
}

#[test]
fn ids_join_with_commas() {
    let ids = vec!["a".to_string(), "b".to_string(), "c".to_string()];
    assert_eq!(join_ids(&ids), "a,b,c");
    assert_eq!(join_ids(&Vec::new()), "");
}
