use mono_debug::release::ReleaseInfo;

fn release() -> ReleaseInfo {
    ReleaseInfo {
        version: "2.1.0".to_string(),
        downloads: vec![
            ("win32-x64".to_string(), "https://example.org/x64.zip".to_string()),
            ("win32-arm64".to_string(), "https://example.org/arm64.zip".to_string()),
        ],
    }
}

#[test]
fn url_found_for_listed_key() {
    let r = release();
    assert_eq!(r.download_url(&"win32-arm64".to_string()), Some("https://example.org/arm64.zip".to_string()));
    assert_eq!(r.download_url(&"win32-x64".to_string()), Some("https://example.org/x64.zip".to_string()));
}

#[test]
fn no_url_for_unlisted_key() {
    assert_eq!(release().download_url(&"linux-x64".to_string()), None);
}

#[test]
fn empty_release_has_no_urls() {
    let r = ReleaseInfo { version: "1.0.0".to_string(), downloads: vec![] };
    assert_eq!(r.download_url(&"win32-x64".to_string()), None);
}

#[test]
fn first_listed_url_wins() {
    let r = ReleaseInfo {
        version: String::new(),
        downloads: vec![
            ("k".to_string(), "one".to_string()),
            ("k".to_string(), "two".to_string()),
        ],
    };
    assert_eq!(r.download_url(&"k".to_string()), Some("one".to_string()));
}
