use anarchic_image_hosting_cli::payload::{display_name, FilePayload, FALLBACK_FILE_NAME};

#[test]
fn final_segment_is_the_display_name() {
    assert_eq!(display_name(Some("photo.png")), "photo.png");
    assert_eq!(display_name(Some("no extension")), "no extension");
}

#[test]
fn missing_segment_gives_the_fallback_name() {
    assert_eq!(display_name(None), "unknown_file");
    assert_eq!(FALLBACK_FILE_NAME, "unknown_file");
}

#[test]
fn empty_segment_is_kept() {
    assert_eq!(display_name(Some("")), "");
}

#[test]
fn payload_joins_bytes_and_name() {
    let payload = FilePayload::new(vec![0x89, b'P', b'N', b'G'], Some("photo.png"));
    assert_eq!(
        payload,
        FilePayload { bytes: vec![0x89, b'P', b'N', b'G'], name: "photo.png".to_string() }
    );
}

#[test]
fn payload_of_an_empty_file_without_a_name() {
    let payload = FilePayload::new(Vec::new(), None);
    assert_eq!(payload, FilePayload { bytes: Vec::new(), name: "unknown_file".to_string() });
}
