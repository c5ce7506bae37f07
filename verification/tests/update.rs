use evectl::selfupdate::{
    data_checksum, install_advice, normalize_checksum, to_hex, update_advice, InstallAdvice,
    UpdateAdvice,
};

const ABC_SHA256: &str = "ba7816bf8f01cfea414140de5dae2223b00361a396177a9cb410ff61f20015ad";

#[test]
fn hex_encoding() {
    assert_eq!(to_hex(&[0x00, 0xff, 0x1a]), b"00ff1a".to_vec());
    assert_eq!(to_hex(&[]), Vec::<u8>::new());
}

#[test]
fn known_digest() {
    assert_eq!(data_checksum(b"abc"), ABC_SHA256.as_bytes().to_vec());
}

#[test]
fn checksum_normalization() {
    assert_eq!(normalize_checksum(b"  ABCdef123\n"), b"abcdef123".to_vec());
    assert_eq!(normalize_checksum(b"\t\r\n "), Vec::<u8>::new());
    assert_eq!(normalize_checksum(b"plain"), b"plain".to_vec());
}

#[test]
fn matching_checksums_mean_no_update() {
    let local = Some(ABC_SHA256.as_bytes().to_vec());
    let remote = format!("{}\n", ABC_SHA256.to_uppercase());
    let advice = update_advice(false, 200, &local, remote.as_bytes());
    assert_eq!(advice, UpdateAdvice::UpToDate);
}

#[test]
fn different_checksums_mean_download() {
    let local = Some(b"0000".to_vec());
    let advice = update_advice(false, 200, &local, ABC_SHA256.as_bytes());
    assert_eq!(advice, UpdateAdvice::Download);
}

#[test]
fn unknown_local_checksum_forces_download() {
    let advice = update_advice(false, 200, &None, ABC_SHA256.as_bytes());
    assert_eq!(advice, UpdateAdvice::Download);
}

#[test]
fn bad_http_status_aborts() {
    let local = Some(ABC_SHA256.as_bytes().to_vec());
    let advice = update_advice(false, 404, &local, ABC_SHA256.as_bytes());
    assert_eq!(advice, UpdateAdvice::AbortBadStatus);
}

#[test]
fn development_environment_skips() {
    let advice = update_advice(true, 200, &None, ABC_SHA256.as_bytes());
    assert_eq!(advice, UpdateAdvice::SkipDevEnv);
}

#[test]
fn verified_download_installs() {
    let advice = install_advice(b"abc", format!(" {} ", ABC_SHA256).as_bytes());
    assert_eq!(advice, InstallAdvice::Install);
}

#[test]
fn mismatched_download_never_installs() {
    let wrong = "00".repeat(32);
    let advice = install_advice(b"abc", wrong.as_bytes());
    assert_eq!(advice, InstallAdvice::AbortChecksumMismatch);
}
