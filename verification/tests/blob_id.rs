use walrus_cli::blob_id::BlobId;

fn sample() -> BlobId {
    let mut bytes = [0u8; 32];
    for (i, b) in bytes.iter_mut().enumerate() {
        *b = (i as u8).wrapping_mul(37).wrapping_add(11);
    }
    BlobId { bytes }
}

#[test]
fn blob_id_text_of_zero_bytes() {
    let id = BlobId { bytes: [0u8; 32] };
    assert_eq!(id.to_text(), "AAAAAAAAAAAAAAAAAAAAAAAAAAAAAAAAAAAAAAAAAAA");
}

#[test]
fn blob_id_text_of_all_ones() {
    let id = BlobId { bytes: [0xffu8; 32] };
    assert_eq!(id.to_text(), "__________________________________________8");
}

#[test]
fn blob_id_text_has_43_characters() {
    assert_eq!(sample().to_text().len(), 43);
}

#[test]
fn blob_id_known_text_is_read() {
    let text = "4BKcDC0Ih5RJ8R0tFMz3MZVNZV8b2goT6_JiEEwNHQo";
    let id = BlobId::parse(text).expect("the text of an identifier");
    assert_eq!(id.bytes[0], 0xe0);
    assert_eq!(id.bytes[1], 0x12);
    assert_eq!(id.bytes[2], 0x9c);
    assert_eq!(id.to_text(), text);
}

#[test]
fn blob_id_round_trips_through_text() {
    let id = sample();
    assert_eq!(BlobId::parse(&id.to_text()), Some(id));
}

#[test]
fn blob_id_of_wrong_length_is_refused() {
    assert_eq!(BlobId::parse(""), None);
    assert_eq!(BlobId::parse("AAAA"), None);
    assert_eq!(BlobId::parse("AAAAAAAAAAAAAAAAAAAAAAAAAAAAAAAAAAAAAAAAAAAA"), None);
}

#[test]
fn blob_id_with_foreign_character_is_refused() {
    assert_eq!(BlobId::parse("AAAAAAAAAAAAAAAAAAAAAAAAAAAAAAAAAAAAAAAAAA+"), None);
    assert_eq!(BlobId::parse("AAAAAAAAAAAAAAAAAAAAAAAAAAAAAAAAAAAAAAAAAA="), None);
    assert_eq!(BlobId::parse("AAAAAAAAAAAAAAAAAAAAAAAAAAAAAAAAAAAAAAAAAAé"), None);
}

#[test]
fn blob_id_with_loose_bits_is_refused() {
    assert_eq!(BlobId::parse("AAAAAAAAAAAAAAAAAAAAAAAAAAAAAAAAAAAAAAAAAAB"), None);
    assert!(BlobId::parse("AAAAAAAAAAAAAAAAAAAAAAAAAAAAAAAAAAAAAAAAAAE").is_some());
}
