use getlrc::cache::signature::{to_hex_lower, TrackSignature};

fn signature(artist: &str, title: &str, album: Option<&str>, duration_sec: u32) -> TrackSignature {
    TrackSignature {
        artist: artist.to_string(),
        title: title.to_string(),
        album: album.map(|album| album.to_string()),
        duration_sec,
    }
}

#[test]
fn canonical_json_lists_the_fields_in_order() {
    let sig = signature("Daft Punk", "One More Time", Some("Discovery"), 320);
    assert_eq!(
        sig.to_canonical_json().unwrap(),
        "{\"artist\":\"Daft Punk\",\"title\":\"One More Time\",\"album\":\"Discovery\",\"duration_sec\":320}"
    );
}

#[test]
fn canonical_json_writes_a_missing_album_as_null() {
    let sig = signature("Daft Punk", "One More Time", None, 320);
    assert_eq!(
        sig.to_canonical_json().unwrap(),
        "{\"artist\":\"Daft Punk\",\"title\":\"One More Time\",\"album\":null,\"duration_sec\":320}"
    );
}

#[test]
fn canonical_json_escapes_what_json_escapes() {
    let sig = signature("Say \"Hi\"\\now\n", "Tab\there\u{1}", Some("Beyoncé – Ünïcode ☃"), u32::MAX);
    assert_eq!(
        sig.to_canonical_json().unwrap(),
        "{\"artist\":\"Say \\\"Hi\\\"\\\\now\\n\",\"title\":\"Tab\\there\\u0001\",\"album\":\"Beyoncé – Ünïcode ☃\",\"duration_sec\":4294967295}"
    );
}

#[test]
fn fingerprint_is_the_sha256_of_the_canonical_json() {
    assert_eq!(
        signature("Daft Punk", "One More Time", Some("Discovery"), 320).generate_hash(),
        "61407b26c3715f46fdd9979bc324ea4acf8a5865a6bf1b893dbf24df5a21f377"
    );
    assert_eq!(
        signature("Daft Punk", "One More Time", None, 320).generate_hash(),
        "2df26ee063a2f6db5477d8095a154cd597ef2bdb57a7440f4108e3f01e224be2"
    );
    assert_eq!(
        signature("", "", None, 0).generate_hash(),
        "ac962fae5c0940e034738109c3bda04b932c00e8608284abf1cb6dcef33aea88"
    );
    assert_eq!(
        signature("Say \"Hi\"\\now\n", "Tab\there\u{1}", Some("Beyoncé – Ünïcode ☃"), u32::MAX)
            .generate_hash(),
        "cf78e341efe2ea4595331e7fb2d9bb5f68fc07880a0bdcb7103ddf2f76051d79"
    );
}

#[test]
fn fingerprint_is_deterministic() {
    let first = signature("Daft Punk", "One More Time", Some("Discovery"), 320).generate_hash();
    let second = signature("Daft Punk", "One More Time", Some("Discovery"), 320).generate_hash();
    assert_eq!(first, second);
    assert_eq!(first.len(), 64);
    assert!(first.chars().all(|c| c.is_ascii_digit() || ('a'..='f').contains(&c)));
}

#[test]
fn fingerprint_changes_with_each_field() {
    let base = signature("Daft Punk", "One More Time", Some("Discovery"), 320).generate_hash();
    assert_eq!(
        signature("Daft Punk", "One More Time", Some("Discovery"), 321).generate_hash(),
        "6b25a2c65d1807c88bf3df46df98718ee71a89c6528a1c6759153ecfbb297d70"
    );
    assert_eq!(
        signature("daft Punk", "One More Time", Some("Discovery"), 320).generate_hash(),
        "720f8eeb28d64fe5143d1e562374d885ad2b59af3d216616054f33631d3ed502"
    );
    assert_ne!(signature("Daft Punk", "One More Time!", Some("Discovery"), 320).generate_hash(), base);
    assert_ne!(signature("Daft Punk", "One More Time", Some("discovery"), 320).generate_hash(), base);
    assert_ne!(signature("Daft Punk", "One More Time", None, 320).generate_hash(), base);
}

#[test]
fn hex_is_lowercase_with_two_digits_a_byte() {
    assert_eq!(to_hex_lower(&vec![]), "");
    assert_eq!(to_hex_lower(&vec![0x00, 0x0f, 0x10, 0x9a, 0xbc, 0xde, 0xff]), "000f109abcdeff");
}
