use osm_sound_demo::url::{absolute_url, escape_path};

#[test]
fn a_protocol_relative_url_gains_a_scheme() {
    assert_eq!(
        absolute_url("//www.archive.org/download/OTMN001/01_Ca5_-_cyberSP.mp3"),
        "https://www.archive.org/download/OTMN001/01_Ca5_-_cyberSP.mp3"
    );
}

#[test]
fn a_raw_path_is_escaped() {
    let escaped = absolute_url("//example.org/download/OTMN083/01. A - 劇.mp3");
    assert_eq!(
        escaped,
        "https://example.org/download/OTMN083/01.%20A%20-%20%E5%8A%87.mp3"
    );
}

#[test]
fn an_escaped_path_is_left_alone() {
    let url = "https://archive.org/download/OTMN100/01.%20bypass%20%26%20co.mp3";
    assert_eq!(absolute_url(url), url);
}

#[test]
fn a_stray_percent_is_escaped() {
    assert_eq!(
        absolute_url("https://example.org/a/100%25/b%zz/c"),
        "https://example.org/a/100%25/b%25zz/c"
    );
}

#[test]
fn a_url_without_a_path_is_untouched() {
    assert_eq!(absolute_url("https://example.org"), "https://example.org");
}

#[test]
fn escaping_twice_is_escaping_once() {
    for path in ["/a b", "/100%", "/%2", "/%zz/é", "/劇?q=1#f", "/already%20done"] {
        let once = escape_path(path);
        assert_eq!(escape_path(&once), once);
        assert!(once.is_ascii());
    }
    for url in ["//h o/a b", "x://é/é", "//", "a//b", "://x/y z", "nothing"] {
        let once = absolute_url(url);
        assert_eq!(absolute_url(&once), once);
    }
}

#[test]
fn a_host_is_never_escaped() {
    assert_eq!(absolute_url("x://é/é"), "x://é/%C3%A9");
    assert_eq!(absolute_url("//h o/a b"), "https://h o/a%20b");
}

#[test]
fn every_byte_is_kept_or_escaped() {
    let keep = "-._~!$&'()*+,;=:@/?#";
    for byte in 0u8..=127 {
        let text = String::from(byte as char);
        let expected = if byte.is_ascii_alphanumeric() || keep.contains(byte as char) {
            text.clone()
        } else {
            format!("%{byte:02X}")
        };
        assert_eq!(escape_path(&text), expected);
    }
}
