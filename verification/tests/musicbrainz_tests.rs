use ytmusicd::musicbrainz::{artists_to_string, ApiKeyStore, ArtistCredit, Recording, RecordingCache};

fn rec(id: &str, title: &str) -> Recording {
    Recording {
        id: String::from(id),
        title: String::from(title),
        disambiguation: None,
        artist_credit: None,
    }
}

#[test]
fn artist_credits_join_with_phrases() {
    let credits = vec![
        ArtistCredit { name: String::from("Alpha"), joinphrase: Some(String::from("feat.")) },
        ArtistCredit { name: String::from("Beta"), joinphrase: None },
    ];
    assert_eq!(artists_to_string(&credits), "Alpha feat. Beta ");
}

#[test]
fn lone_artist_credit() {
    let credits = vec![ArtistCredit { name: String::from("Solo"), joinphrase: None }];
    assert_eq!(artists_to_string(&credits), "Solo ");
    assert_eq!(artists_to_string(&Vec::new()), "");
}

#[test]
fn cache_serves_each_id_once() {
    let mut cache = RecordingCache::new();
    assert!(cache.insert(rec("m1", "First")));
    assert!(cache.insert(rec("m2", "Second")));
    // a second fetch of the same id changes nothing: the first stays
    assert!(!cache.insert(rec("m1", "Replacement")));
    assert_eq!(cache.len(), 2);
    let k = cache.find("m1").unwrap();
    assert_eq!(cache.entry(k).title, "First");
    assert!(cache.find("m3").is_none());
}

#[test]
fn missing_count_reports_unfetched_ids() {
    let mut cache = RecordingCache::new();
    cache.insert(rec("m1", "First"));
    let wanted = vec![String::from("m1"), String::from("m2"), String::from("m3")];
    assert_eq!(cache.missing_count(&wanted), 2);
    cache.insert(rec("m2", "Second"));
    cache.insert(rec("m3", "Third"));
    assert_eq!(cache.missing_count(&wanted), 0);
}

#[test]
fn api_key_is_kept_once_per_process() {
    let mut store = ApiKeyStore::new();
    assert!(store.get().is_none());
    store.persist_if_absent("first-key");
    assert_eq!(store.get().unwrap(), "first-key");
    // later submissions never overwrite the key asked for once
    store.persist_if_absent("second-key");
    assert_eq!(store.get().unwrap(), "first-key");
}
