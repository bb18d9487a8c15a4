use pxcmprs_core::error::ErrorKind;
use pxcmprs_core::pipeline::sniff;

fn with_tail(signature: &[u8]) -> Vec<u8> {
    let mut bytes = signature.to_vec();
    bytes.extend_from_slice(&[1, 2, 3, 4, 5, 6, 7, 8]);
    bytes
}

#[test]
fn the_signatures_of_a_frame_sequence_are_told() {
    assert_eq!(sniff(b"GIF89a").ok(), Some(true));
    assert_eq!(sniff(b"GIF87a").ok(), Some(true));
    assert_eq!(sniff(&with_tail(b"GIF89a")).ok(), Some(true));
    assert_eq!(sniff(&with_tail(b"GIF87a")).ok(), Some(true));
}

#[test]
fn the_signatures_of_still_containers_are_told() {
    let signatures: [&[u8]; 18] = [
        &[0x89, 0x50, 0x4E, 0x47, 0x0D, 0x0A, 0x1A, 0x0A],
        &[0xFF, 0xD8, 0xFF],
        b"RIFF",
        &[0x4D, 0x4D, 0x00, 0x2A],
        &[0x49, 0x49, 0x2A, 0x00],
        b"DDS ",
        b"BM",
        &[0, 0, 1, 0],
        b"#?RADIANCE",
        &[0x50, 0x31],
        &[0x50, 0x32],
        &[0x50, 0x33],
        &[0x50, 0x34],
        &[0x50, 0x35],
        &[0x50, 0x36],
        &[0x50, 0x37],
        b"farbfeld",
        &[0, 0, 0, 0x20, 0x66, 0x74, 0x79, 0x70, 0x61, 0x76, 0x69, 0x66],
    ];
    for signature in signatures {
        assert_eq!(sniff(signature).ok(), Some(false), "{:?}", signature);
        assert_eq!(sniff(&with_tail(signature)).ok(), Some(false), "{:?}", signature);
        // One byte short of the signature is no signature.
        let short = &signature[..signature.len() - 1];
        assert!(sniff(short).is_err(), "{:?}", short);
    }
}

#[test]
fn other_bytes_are_no_container() {
    let others: [&[u8]; 9] = [
        b"",
        b"G",
        b"GIF88a",
        b"GIF89b",
        b"gif89a",
        &[0x50, 0x30],
        &[0x50, 0x38],
        &[0xFF, 0xD8, 0xFE],
        b"hello world",
    ];
    for bytes in others {
        let failure = sniff(bytes).err().unwrap();
        assert_eq!(failure.error_kind(), ErrorKind::Decode, "{:?}", bytes);
    }
}
