use dprint::http_cache::{
    freshness_lifetime_secs, is_cache_entry_fresh, CacheEntry, HeadersMap,
    SerializedCachedUrlMetadata, REMOTE_FILE_MAX_AGE_SECS,
};

fn headers(pairs: &[(&str, &str)]) -> HeadersMap {
    let mut headers = HeadersMap::new();
    for (name, value) in pairs {
        headers.insert(name.to_string(), value.to_string());
    }
    headers
}

fn entry(pairs: &[(&str, &str)], time: Option<u64>) -> CacheEntry {
    CacheEntry {
        metadata: SerializedCachedUrlMetadata {
            headers: headers(pairs),
            url: "https://dprint.dev/test.json".to_string(),
            time,
        },
        content: Vec::new(),
    }
}

#[test]
fn should_get_if_cache_entry_is_fresh() {
    const YEAR: u64 = 31_536_000;
    let now = YEAR * 2;
    assert!(is_cache_entry_fresh(&entry(&[], Some(now)), now));
    assert!(is_cache_entry_fresh(&entry(&[], Some(now - REMOTE_FILE_MAX_AGE_SECS + 1)), now));
    assert!(!is_cache_entry_fresh(&entry(&[], Some(now - REMOTE_FILE_MAX_AGE_SECS)), now));
    // cached by an older dprint without a time
    assert!(!is_cache_entry_fresh(&entry(&[], None), now));
    // clock went backwards
    assert!(is_cache_entry_fresh(&entry(&[], Some(now + 10)), now));
    // immutable responses are trusted for their max-age
    let immutable = &[("cache-control", "public, max-age=31536000, s-maxage=31536000, immutable")];
    assert!(is_cache_entry_fresh(&entry(immutable, Some(now - YEAR + 1)), now));
    assert!(!is_cache_entry_fresh(&entry(immutable, Some(now - YEAR)), now));
    assert!(!is_cache_entry_fresh(&entry(immutable, None), now));
    assert!(is_cache_entry_fresh(
        &entry(&[("Cache-Control", "IMMUTABLE, Max-Age=\"31536000\"")], Some(now - YEAR + 1)),
        now
    ));
    // but never for less than the default
    let short_immutable = &[("cache-control", "max-age=60, immutable")];
    assert!(is_cache_entry_fresh(
        &entry(short_immutable, Some(now - REMOTE_FILE_MAX_AGE_SECS + 1)),
        now
    ));
    assert!(!is_cache_entry_fresh(
        &entry(short_immutable, Some(now - REMOTE_FILE_MAX_AGE_SECS)),
        now
    ));
    assert!(!is_cache_entry_fresh(
        &entry(&[("cache-control", "immutable")], Some(now - REMOTE_FILE_MAX_AGE_SECS)),
        now
    ));
    // max-age alone isn't trusted
    assert!(!is_cache_entry_fresh(
        &entry(
            &[("cache-control", "public, max-age=604800, s-maxage=43200")],
            Some(now - REMOTE_FILE_MAX_AGE_SECS)
        ),
        now
    ));
    assert!(!is_cache_entry_fresh(
        &entry(&[("cache-control", "not-immutable")], Some(now - REMOTE_FILE_MAX_AGE_SECS)),
        now
    ));
}

#[test]
fn the_default_lifetime_is_an_hour() {
    assert_eq!(REMOTE_FILE_MAX_AGE_SECS, 60 * 60);
    assert_eq!(freshness_lifetime_secs(&headers(&[])), 3600);
}

#[test]
fn lifetimes_are_read_from_the_directives() {
    let lifetime = |value: &str| freshness_lifetime_secs(&headers(&[("cache-control", value)]));
    assert_eq!(lifetime("immutable, max-age=7200"), 7200);
    assert_eq!(lifetime("max-age=7200"), 3600);
    assert_eq!(lifetime("\u{3000}immutable\t, MAX-AGE = \" 7200\""), 3600);
    assert_eq!(lifetime("\u{3000}immutable\t, MAX-AGE = \"\"7200\"\""), 7200);
    assert_eq!(lifetime("immutable,max-age=+7200"), 7200);
    assert_eq!(lifetime("immutable,max-age=-7200"), 3600);
    assert_eq!(lifetime("immutable,max-age=72x0,max-age=9000"), 9000);
    assert_eq!(lifetime("immutable,max-age=8000,max-age=9000"), 8000);
    assert_eq!(lifetime("immutable,max-age="), 3600);
    assert_eq!(lifetime("immutable,max-age=18446744073709551615"), 18446744073709551615);
    assert_eq!(lifetime("immutable,max-age=18446744073709551616"), 3600);
    assert_eq!(lifetime("immutable=1,max-age=7200"), 3600);
    assert_eq!(lifetime(""), 3600);
    assert_eq!(lifetime(",,immutable,,max-age=7200,,"), 7200);
}

#[test]
fn directives_of_several_headers_are_taken_together() {
    let both = headers(&[
        ("Cache-Control", "immutable"),
        ("content-type", "max-age=9999"),
        ("cache-control", "max-age=7200"),
    ]);
    assert_eq!(freshness_lifetime_secs(&both), 7200);
}

#[test]
fn the_latest_time_is_no_overflow() {
    let immutable = &[("cache-control", "immutable,max-age=18446744073709551615")];
    assert!(is_cache_entry_fresh(&entry(immutable, Some(1)), u64::MAX));
    assert!(!is_cache_entry_fresh(&entry(immutable, Some(0)), u64::MAX));
}

#[test]
fn headers_are_read_back() {
    let mut headers = headers(&[("location", "a")]);
    headers.insert("etag".to_string(), "b".to_string());
    headers.insert("location".to_string(), "c".to_string());
    assert_eq!(headers.get("location"), Some("c"));
    assert_eq!(headers.get("etag"), Some("b"));
    assert_eq!(headers.get("Location"), None);
    assert_eq!(headers.clone(), headers);
}
