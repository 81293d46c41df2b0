use anarchic_image_hosting_cli::payload::FilePayload;
use anarchic_image_hosting_cli::upload::{multipart_form, FILE_FIELD};
use futures_util::StreamExt;
use reqwest::multipart::Form;

fn body_of(form: Form) -> Vec<u8> {
    let runtime = tokio::runtime::Builder::new_current_thread().build().unwrap();
    runtime.block_on(async {
        let mut stream = Box::pin(form.into_stream());
        let mut body = Vec::new();
        while let Some(chunk) = stream.next().await {
            body.extend_from_slice(&chunk.unwrap());
        }
        body
    })
}

fn expected_body(boundary: &str, file_name: &str, bytes: &[u8]) -> Vec<u8> {
    let mut body = Vec::new();
    body.extend_from_slice(format!("--{}\r\n", boundary).as_bytes());
    body.extend_from_slice(
        format!(
            "Content-Disposition: form-data; name=\"file\"; filename=\"{}\"\r\n\r\n",
            file_name
        )
        .as_bytes(),
    );
    body.extend_from_slice(bytes);
    body.extend_from_slice(b"\r\n");
    body.extend_from_slice(format!("--{}--\r\n", boundary).as_bytes());
    body
}

#[test]
fn file_field_name() {
    assert_eq!(FILE_FIELD, "file");
}

#[test]
fn form_holds_one_file_part_with_name_and_bytes() {
    let bytes = vec![0x89, b'P', b'N', b'G', 0x0d, 0x0a, 0x1a, 0x0a, 0x00, 0xff];
    let form = multipart_form(FilePayload::new(bytes.clone(), Some("photo.png")));
    let boundary = form.boundary().to_string();
    assert_eq!(body_of(form), expected_body(&boundary, "photo.png", &bytes));
}

#[test]
fn form_of_a_nameless_file_uses_the_fallback_name() {
    let form = multipart_form(FilePayload::new(b"abc".to_vec(), None));
    let boundary = form.boundary().to_string();
    assert_eq!(body_of(form), expected_body(&boundary, "unknown_file", b"abc"));
}

#[test]
fn form_of_an_empty_file_still_has_its_part() {
    let form = multipart_form(FilePayload::new(Vec::new(), Some("empty.bin")));
    let boundary = form.boundary().to_string();
    assert_eq!(body_of(form), expected_body(&boundary, "empty.bin", b""));
}

#[test]
fn form_description_shows_field_and_file_name() {
    let form = multipart_form(FilePayload::new(vec![1, 2, 3], Some("photo.png")));
    let described = format!("{:?}", form);
    assert!(described.contains("\"file\""));
    assert!(described.contains("file_name: Some(\"photo.png\")"));
    assert_eq!(described.matches("Part {").count(), 1);
}
