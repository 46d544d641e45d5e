use std::io::Read;

use rapidl::artifact::{
    canonical_job_id, compress_artifact, encode_blob, job_cache_key, new_job_id, object_key,
    parse_job_id,
};

#[test]
fn job_ids_are_uuids() {
    assert_eq!(
        parse_job_id("550e8400-e29b-41d4-a716-446655440000"),
        Some(0x550e8400_e29b_41d4_a716_446655440000)
    );
    assert_eq!(parse_job_id("not-a-uuid"), None);
    assert_eq!(parse_job_id(""), None);
    assert_eq!(parse_job_id("550e8400-e29b-41d4-a716-44665544000"), None);
}

#[test]
fn a_job_id_is_written_one_way() {
    let canonical = "550e8400-e29b-41d4-a716-446655440000";
    assert_eq!(canonical_job_id(canonical), Some(canonical.to_string()));
    assert_eq!(
        canonical_job_id("550E8400E29B41D4A716446655440000"),
        Some(canonical.to_string())
    );
    assert_eq!(canonical_job_id("{550e8400-e29b-41d4-a716-446655440000}"), Some(canonical.to_string()));
    assert_eq!(canonical_job_id("job 1"), None);
}

#[test]
fn fresh_job_ids_differ_and_parse() {
    let a = new_job_id();
    let b = new_job_id();
    assert_ne!(a, b);
    assert_eq!(a.len(), 36);
    assert!(parse_job_id(&a).is_some());
    assert_eq!(canonical_job_id(&a), Some(a.clone()));
    assert_eq!(uuid::Uuid::parse_str(&b).unwrap().get_version_num(), 4);
    for id in [a, b] {
        let value = parse_job_id(&id).unwrap();
        assert_eq!(
            value & 0x0000_0000_0000_f000_c000_0000_0000_0000,
            0x0000_0000_0000_4000_8000_0000_0000_0000
        );
    }
}

#[test]
fn keys() {
    assert_eq!(job_cache_key("abc"), "gen:job:abc");
    assert_eq!(object_key("abc"), "abc.rapidl.gz");
    assert_eq!(
        object_key("550e8400-e29b-41d4-a716-446655440000"),
        "550e8400-e29b-41d4-a716-446655440000.rapidl.gz"
    );
}

#[test]
fn packed_bytes_unpack_to_what_was_packed() {
    let plain: Vec<u8> = (0..10_000u32).map(|i| (i % 251) as u8).collect();
    let packed = compress_artifact(&plain).expect("packs");
    assert_ne!(packed, plain);
    assert!(packed.len() >= 18);
    assert_eq!(&packed[..3], &[0x1f, 0x8b, 8]);
    let mut unpacked = Vec::new();
    flate2::read::GzDecoder::new(&packed[..]).read_to_end(&mut unpacked).unwrap();
    assert_eq!(unpacked, plain);
    let empty = compress_artifact(&vec![]).expect("packs");
    assert!(empty.len() >= 18);
    // The same bytes are packed to the same bytes, whenever they are packed.
    assert_eq!(compress_artifact(&plain), Some(packed));
    assert_eq!(compress_artifact(&vec![]), Some(empty));
}

#[test]
fn blobs_are_base64() {
    assert_eq!(encode_blob(&b"".to_vec()), Some("".to_string()));
    assert_eq!(encode_blob(&b"f".to_vec()), Some("Zg==".to_string()));
    assert_eq!(encode_blob(&b"fo".to_vec()), Some("Zm8=".to_string()));
    assert_eq!(encode_blob(&b"foo".to_vec()), Some("Zm9v".to_string()));
    assert_eq!(encode_blob(&b"hello".to_vec()), Some("aGVsbG8=".to_string()));
    assert_eq!(encode_blob(&vec![0xfb, 0xff]), Some("+/8=".to_string()));
}
