use unstrem::catalog::{date_part, normalize, normalize_all, CatalogEntry};
use unstrem::session::{PlaybackSession, PlaybackSessions};
use unstrem::streams::streams_url;

#[test]
fn sessions_insert_and_get() {
    let mut s = PlaybackSessions::new();
    assert!(s.get(&"tt1".to_string()).is_none());
    s.insert(PlaybackSession::new("tt1".to_string(), 120, false));
    s.insert(PlaybackSession::new("tt2".to_string(), 5, true));
    let a = s.get(&"tt1".to_string()).unwrap();
    assert_eq!(a.imdb_id(), "tt1");
    assert_eq!(a.timestamp(), 120);
    assert!(!a.watched());
    assert_eq!(s.records().len(), 2);
}

#[test]
fn sessions_insert_replaces_same_id() {
    let mut s = PlaybackSessions::default();
    s.insert(PlaybackSession::new("tt1".to_string(), 120, false));
    s.insert(PlaybackSession::new("tt1".to_string(), 999, true));
    assert_eq!(s.records().len(), 1);
    let a = s.get(&"tt1".to_string()).unwrap();
    assert_eq!(a.timestamp(), 999);
    assert!(a.watched());
}

#[test]
fn date_part_cuts_at_t() {
    assert_eq!(date_part("2024-05-01T00:00:00.000Z"), "2024-05-01");
    assert_eq!(date_part("2024-05-01"), "2024-05-01");
    assert_eq!(date_part(""), "");
    assert_eq!(date_part("T12"), "");
}

fn entry(imdb: Option<&str>, id: Option<&str>) -> CatalogEntry {
    CatalogEntry {
        imdb_id: imdb.map(|s| s.to_string()),
        id: id.map(|s| s.to_string()),
        name: Some("Film".to_string()),
        poster: Some("p.jpg".to_string()),
        background: None,
        released: Some("1999-03-31T00:00:00.000Z".to_string()),
        description: Some("About".to_string()),
        imdb_rating: Some("8.7".to_string()),
    }
}

#[test]
fn normalize_prefers_imdb_id() {
    let m = normalize(&entry(Some("tt0133093"), Some("other")));
    assert_eq!(m.id.as_deref(), Some("tt0133093"));
    assert_eq!(m.title.as_deref(), Some("Film"));
    assert_eq!(m.poster_path.as_deref(), Some("p.jpg"));
    assert_eq!(m.backdrop_path, None);
    assert_eq!(m.release_date.as_deref(), Some("1999-03-31"));
    assert_eq!(m.overview.as_deref(), Some("About"));
    assert_eq!(m.rating_text.as_deref(), Some("8.7"));
}

#[test]
fn normalize_falls_back_to_catalog_id() {
    let m = normalize(&entry(None, Some("other")));
    assert_eq!(m.id.as_deref(), Some("other"));
    let none = normalize(&entry(None, None));
    assert_eq!(none.id, None);
    let all = normalize_all(&vec![entry(Some("a"), None), entry(None, Some("b"))]);
    assert_eq!(all.len(), 2);
    assert_eq!(all[1].id.as_deref(), Some("b"));
}

#[test]
fn stream_address() {
    assert_eq!(
        streams_url("u-1", "pw", "movie", "tt42"),
        "https://aiostreams-sonic.lolcathost.ovh/stremio/u-1/pw/stream/movie/tt42.json"
    );
}
