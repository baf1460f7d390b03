use frostflake::release::{instant_later, ReleaseAsset, ReleaseFeed, YasReleaseInfo};

fn info(update_at: &str) -> YasReleaseInfo {
    YasReleaseInfo { version: "v".to_string(), update_at: update_at.to_string(), url: String::new() }
}

#[test]
fn default_record_is_the_epoch_placeholder() {
    let d = YasReleaseInfo::default();
    assert_eq!(d.version, "null");
    assert_eq!(d.update_at, "2011-08-16T00:00:00Z");
    assert_eq!(d.url, "https://example.com/");
}

#[test]
fn newer_compares_publication_times() {
    let a = info("2024-01-02T00:00:00Z");
    let b = YasReleaseInfo::default();
    assert!(a.newer_than(&b));
    assert!(!b.newer_than(&a));
    assert!(!a.newer_than(&a.clone()));
}

#[test]
fn newer_respects_offsets_and_fractions() {
    let a = info("2024-01-01T01:00:00+02:00");
    let b = info("2023-12-31T23:30:00Z");
    assert!(!a.newer_than(&b));
    assert!(b.newer_than(&a));
    let c = info("2023-12-31T23:30:00.5Z");
    assert!(c.newer_than(&b));
}

#[test]
fn unparsable_times_are_never_newer() {
    let a = info("yesterday");
    let b = YasReleaseInfo::default();
    assert!(!a.newer_than(&b));
    assert!(!b.newer_than(&a));
}

#[test]
fn instant_order_is_seconds_then_nanoseconds() {
    assert!(instant_later(Some((2, 0)), Some((1, 999))));
    assert!(instant_later(Some((1, 5)), Some((1, 4))));
    assert!(!instant_later(Some((1, 4)), Some((1, 4))));
    assert!(!instant_later(None, Some((0, 0))));
    assert!(!instant_later(Some((0, 0)), None));
}

fn asset(name: &str, url: &str) -> ReleaseAsset {
    ReleaseAsset { name: name.to_string(), browser_download_url: url.to_string() }
}

#[test]
fn release_info_picks_the_first_binary() {
    let feed = ReleaseFeed {
        tag_name: "v0.1.18".to_string(),
        published_at: "2024-05-01T10:00:00Z".to_string(),
        assets: vec![
            asset("notes.txt", "https://d/notes"),
            asset("yas_artifact_v0.1.18.exe", "https://d/artifact"),
            asset("yas_v0.1.18.exe", "https://d/plain"),
        ],
    };
    let r = feed.release_info();
    assert_eq!(r.version, "v0.1.18");
    assert_eq!(r.update_at, "2024-05-01T10:00:00Z");
    assert_eq!(r.url, "https://d/artifact");
}

#[test]
fn release_info_without_binary_has_no_url() {
    let feed = ReleaseFeed {
        tag_name: "v2".to_string(),
        published_at: "2024-05-01T10:00:00Z".to_string(),
        assets: vec![asset("yas_v1.exe", "https://d/old"), asset("yas_v2.zip", "https://d/zip")],
    };
    assert_eq!(feed.release_info().url, "");
}
