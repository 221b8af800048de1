use mmfplace::crypto::{get_file_md5, sha256_digest};

#[test]
fn md5_of_known_bytes() {
    let md5 = get_file_md5(b"abc");
    println!("md5: {}", md5);
    assert_eq!(md5, "900150983cd24fb0d6963f7d28e17f72");
    assert_eq!(get_file_md5(b""), "d41d8cd98f00b204e9800998ecf8427e");
}

#[test]
fn sha256_of_known_bytes() {
    let digest = sha256_digest(b"abc");
    assert_eq!(
        digest,
        "ba7816bf8f01cfea414140de5dae2223b00361a396177a9cb410ff61f20015ad"
    );
}

#[test]
fn hash_stable_across_copy() {
    // The hash computed at parse time equals the hash of the placed copy:
    // copying does not change the bytes.
    let source: Vec<u8> = vec![1, 2, 3, 250, 251, 252];
    let copy = source.clone();
    assert_eq!(get_file_md5(&source), get_file_md5(&copy));
    assert_eq!(sha256_digest(&source), sha256_digest(&copy));
}

#[test]
fn different_bytes_different_hash() {
    assert_ne!(get_file_md5(b"abc"), get_file_md5(b"abd"));
}
