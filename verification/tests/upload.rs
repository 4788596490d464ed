//! Validation of multipart file-upload fields.

use openai_proxy::upload::{parse_file_purpose, prepare_file_upload, FilePurpose, MultipartField};

fn part(name: &str, filename: Option<&str>, data: &[u8]) -> MultipartField {
    MultipartField {
        name: name.as_bytes().to_vec(),
        filename: filename.map(|f| f.as_bytes().to_vec()),
        data: data.to_vec(),
    }
}

#[test]
fn complete_upload_is_accepted() {
    let fields = vec![
        part("purpose", None, b"fine-tune"),
        part("file", Some("data.jsonl"), b"{\"a\":1}"),
    ];
    let upload = prepare_file_upload(&fields).unwrap();
    assert_eq!(upload.filename, b"data.jsonl".to_vec());
    assert_eq!(upload.data, b"{\"a\":1}".to_vec());
    assert_eq!(upload.purpose, FilePurpose::FineTune);
}

#[test]
fn missing_file_field_fails_before_upstream() {
    let fields = vec![part("purpose", None, b"assistants")];
    let err = prepare_file_upload(&fields).unwrap_err();
    assert_eq!(err.0, "File not provided");
}

#[test]
fn missing_filename_is_reported() {
    let fields = vec![part("file", None, b"bytes"), part("purpose", None, b"assistants")];
    let err = prepare_file_upload(&fields).unwrap_err();
    assert_eq!(err.0, "Filename not provided");
}

#[test]
fn missing_purpose_is_reported() {
    let fields = vec![part("file", Some("a.txt"), b"bytes")];
    let err = prepare_file_upload(&fields).unwrap_err();
    assert_eq!(err.0, "Purpose not provided");
}

#[test]
fn unknown_fields_are_ignored() {
    let fields = vec![
        part("extra", Some("x"), b"ignored"),
        part("file", Some("a.txt"), b"bytes"),
        part("purpose", None, b"assistants"),
    ];
    let upload = prepare_file_upload(&fields).unwrap();
    assert_eq!(upload.filename, b"a.txt".to_vec());
    assert_eq!(upload.purpose, FilePurpose::Assistants);
}

#[test]
fn later_field_overwrites_earlier() {
    let fields = vec![
        part("file", Some("old.txt"), b"old"),
        part("purpose", None, b"fine-tune"),
        part("file", Some("new.txt"), b"new"),
        part("purpose", None, b"assistants"),
    ];
    let upload = prepare_file_upload(&fields).unwrap();
    assert_eq!(upload.filename, b"new.txt".to_vec());
    assert_eq!(upload.data, b"new".to_vec());
    assert_eq!(upload.purpose, FilePurpose::Assistants);
}

#[test]
fn later_file_field_without_filename_drops_it() {
    let fields = vec![
        part("file", Some("old.txt"), b"old"),
        part("file", None, b"new"),
        part("purpose", None, b"assistants"),
    ];
    let err = prepare_file_upload(&fields).unwrap_err();
    assert_eq!(err.0, "Filename not provided");
}

#[test]
fn unrecognized_purpose_falls_back_to_assistants() {
    assert_eq!(parse_file_purpose(&b"assistants".to_vec()), FilePurpose::Assistants);
    assert_eq!(parse_file_purpose(&b"fine-tune".to_vec()), FilePurpose::FineTune);
    assert_eq!(parse_file_purpose(&b"whatever".to_vec()), FilePurpose::Assistants);
    assert_eq!(parse_file_purpose(&b"FINE-TUNE".to_vec()), FilePurpose::Assistants);
}
