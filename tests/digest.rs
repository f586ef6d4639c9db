use golden_updater::error::Error;

const EMPTY_SHA256: &str = "e3b0c44298fc1c149afbf4c8996fb92427ae41e4649b934ca495991b7852b855";
const ABC_SHA256: &str = "ba7816bf8f01cfea414140de5dae2223b00361a396177a9cb410ff61f20015ad";

#[test]
fn parse_accepts_lower_case_digest_and_keeps_text() {
    let text = "0123456789abcdef".repeat(4);
    let h = golden_updater::hash::Hash::from_str(&text).unwrap();
    assert_eq!(h.as_str(), text);
}

#[test]
fn parse_accepts_upper_case_digest_and_keeps_text() {
    let text = "0123456789ABCDEF".repeat(4);
    let h = golden_updater::hash::Hash::from_str(&text).unwrap();
    assert_eq!(h.as_str(), text);
}

#[test]
fn parse_rejects_mixed_case() {
    let text = format!("{}{}", "a".repeat(63), "B");
    assert_eq!(golden_updater::hash::Hash::from_str(&text).unwrap_err(), Error::InvalidHash);
}

#[test]
fn parse_rejects_wrong_lengths() {
    for n in [0usize, 1, 63, 65, 128] {
        let text = "a".repeat(n);
        assert_eq!(golden_updater::hash::Hash::from_str(&text).unwrap_err(), Error::InvalidHash);
    }
}

#[test]
fn parse_rejects_non_hex_characters() {
    let text = format!("{}g", "a".repeat(63));
    assert_eq!(golden_updater::hash::Hash::from_str(&text).unwrap_err(), Error::InvalidHash);
    let spaced = format!("{} ", "a".repeat(63));
    assert_eq!(golden_updater::hash::Hash::from_str(&spaced).unwrap_err(), Error::InvalidHash);
}

#[test]
fn digest_of_known_contents() {
    let empty = golden_updater::hash::Hash::of_bytes(&[]).unwrap();
    assert_eq!(empty.as_str(), EMPTY_SHA256);
    let abc = golden_updater::hash::Hash::of_bytes(b"abc").unwrap();
    assert_eq!(abc.as_str(), ABC_SHA256);
}

#[test]
fn digest_is_deterministic_and_sees_one_byte() {
    let data = b"some file contents".to_vec();
    let a = golden_updater::hash::Hash::of_bytes(&data).unwrap();
    let b = golden_updater::hash::Hash::of_bytes(&data.clone()).unwrap();
    assert!(a.same(&b));
    assert_eq!(a, b);
    let mut changed = data.clone();
    changed[3] ^= 1;
    let c = golden_updater::hash::Hash::of_bytes(&changed).unwrap();
    assert!(!a.same(&c));
}

#[test]
fn error_messages() {
    assert_eq!(Error::ManifestNotFound.message(), "Could not find manifest file in latest release");
    assert_eq!(
        Error::ReleaseZipNotFound.message(),
        "Could not find the zip file in the latest release. Please contact the developers."
    );
    assert_eq!(Error::InvalidHash.message(), "Invalid hash in manifest file");
    assert_eq!(Error::InvalidManifestLine(3).message(), "Malformed line in manifest file");
}
