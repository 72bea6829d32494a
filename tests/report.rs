use labwired::loader::{image_from_headers, load_elf_bytes, LoadError, PT_LOAD};
use labwired::report::{firmware_hash, hex_lower, uart_text};

#[test]
fn firmware_hash_is_sha256_hex() {
    assert_eq!(
        firmware_hash(b""),
        "e3b0c44298fc1c149afbf4c8996fb92427ae41e4649b934ca495991b7852b855"
    );
    assert_eq!(
        firmware_hash(b"abc"),
        "ba7816bf8f01cfea414140de5dae2223b00361a396177a9cb410ff61f20015ad"
    );
    assert_eq!(hex_lower(&[0x00, 0x9f, 0xff]), "009fff");
}

#[test]
fn uart_bytes_become_text() {
    assert_eq!(uart_text(b"OK\n"), "OK\n");
    assert_eq!(uart_text(&[0x4F, 0xFF]), "O\u{FFFD}");
}

#[test]
fn loadable_segments_are_taken_in_order() {
    let data: Vec<u8> = (0u8..32).collect();
    let headers = vec![
        (PT_LOAD, 0x0800_0000, 4, 4),
        (6, 0x1000, 0, 8),
        (PT_LOAD, 0x2000_0000, 0, 0),
        (PT_LOAD, 0x2000_0000, 10, 2),
    ];
    let img = image_from_headers(0x0800_0001, &headers, &data).unwrap();
    assert_eq!(img.entry_point, 0x0800_0001);
    assert_eq!(img.segments.len(), 2);
    assert_eq!(img.segments[0].start_addr, 0x0800_0000);
    assert_eq!(img.segments[0].data, vec![4, 5, 6, 7]);
    assert_eq!(img.segments[1].data, vec![10, 11]);
    let bad = vec![(PT_LOAD, 0, 30, 4)];
    assert_eq!(image_from_headers(0, &bad, &data).err(), Some(LoadError::SegmentOutOfBounds));
}

#[test]
fn garbage_is_not_an_elf_image() {
    assert_eq!(load_elf_bytes(b"not an elf").err(), Some(LoadError::Malformed));
}
