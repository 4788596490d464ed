//! Validation of a multipart file-upload request.
//!
//! The handler for file uploads reads the multipart fields of the body and
//! must find a `file` field (with a filename) and a `purpose` field before
//! anything is sent upstream. Fields are scanned in order and a repeated
//! field overwrites the earlier one; unknown fields are ignored. An
//! unrecognized purpose falls back to `assistants`.

use vstd::prelude::*;
use vstd::string::StringExecFns;

use crate::error::AppError;

verus! {

/// One field of a multipart form body, already read into plain values:
/// its name, the filename it carries (if any), and its raw data.
#[derive(Debug)]
pub struct MultipartField {
    pub name: Vec<u8>,
    pub filename: Option<Vec<u8>>,
    pub data: Vec<u8>,
}

/// The purpose a file is uploaded for. Only `fine-tune` is recognized
/// besides the default; any other value falls back to `assistants`.
#[derive(Clone, Copy, Debug, PartialEq, Eq, Structural)]
pub enum FilePurpose {
    Assistants,
    FineTune,
}

/// A validated file upload: the pieces the upstream call needs.
#[derive(Debug)]
pub struct FileUpload {
    pub filename: Vec<u8>,
    pub data: Vec<u8>,
    pub purpose: FilePurpose,
}

/// The multipart field name `file`.
pub open spec fn file_field_name() -> Seq<u8> {
    seq!['f' as u8, 'i' as u8, 'l' as u8, 'e' as u8]
}

/// The multipart field name `purpose`.
pub open spec fn purpose_field_name() -> Seq<u8> {
    seq!['p' as u8, 'u' as u8, 'r' as u8, 'p' as u8, 'o' as u8, 's' as u8, 'e' as u8]
}

/// The purpose value `fine-tune`.
pub open spec fn fine_tune_value() -> Seq<u8> {
    seq!['f' as u8, 'i' as u8, 'n' as u8, 'e' as u8, '-' as u8, 't' as u8, 'u' as u8, 'n' as u8,
        'e' as u8]
}

/// The purpose a raw value denotes: `fine-tune` exactly, else the default.
pub open spec fn spec_parse_purpose(p: Seq<u8>) -> FilePurpose {
    if p == fine_tune_value() {
        FilePurpose::FineTune
    } else {
        FilePurpose::Assistants
    }
}

/// What a scan of the multipart fields has gathered so far: the data of the
/// last `file` field, the filename it carried, and the last `purpose` value.
pub struct UploadScan {
    pub file: Option<Seq<u8>>,
    pub filename: Option<Seq<u8>>,
    pub purpose: Option<Seq<u8>>,
}

/// The content of an optional byte vector.
pub open spec fn opt_bytes_view(o: Option<Vec<u8>>) -> Option<Seq<u8>> {
    match o {
        Some(v) => Some(v@),
        None => None,
    }
}

/// The result of scanning the fields in order: a later `file` or `purpose`
/// field overwrites an earlier one, and other fields are ignored.
pub open spec fn scan_fields(fields: Seq<MultipartField>) -> UploadScan
    decreases fields.len(),
{
    if fields.len() == 0 {
        UploadScan { file: None, filename: None, purpose: None }
    } else {
        let prev = scan_fields(fields.drop_last());
        let f = fields.last();
        if f.name@ == file_field_name() {
            UploadScan {
                file: Some(f.data@),
                filename: opt_bytes_view(f.filename),
                purpose: prev.purpose,
            }
        } else if f.name@ == purpose_field_name() {
            UploadScan { file: prev.file, filename: prev.filename, purpose: Some(f.data@) }
        } else {
            prev
        }
    }
}

/// What validating a multipart body yields: the upload pieces, or the
/// message of the first missing piece in file, filename, purpose order.
pub open spec fn spec_prepare_upload(fields: Seq<MultipartField>) -> Result<
    (Seq<u8>, Seq<u8>, FilePurpose),
    Seq<char>,
> {
    let s = scan_fields(fields);
    match (s.file, s.filename, s.purpose) {
        (Option::None, _, _) => Err("File not provided"@),
        (Option::Some(_), Option::None, _) => Err("Filename not provided"@),
        (Option::Some(_), Option::Some(_), Option::None) => Err("Purpose not provided"@),
        (Option::Some(data), Option::Some(name), Option::Some(purpose)) => Ok(
            (name, data, spec_parse_purpose(purpose)),
        ),
    }
}

/// Whether two byte vectors hold the same bytes.
fn eq_bytes(a: &Vec<u8>, b: &Vec<u8>) -> (r: bool)
    ensures
        r == (a@ == b@),
{
    if a.len() != b.len() {
        return false;
    }
    let n = a.len();
    for i in 0..n
        invariant
            n == a@.len() == b@.len(),
            forall|j: int| 0 <= j < i ==> a@[j] == b@[j],
    {
        if a[i] != b[i] {
            return false;
        }
    }
    assert(a@ =~= b@);
    true
}

/// A fresh copy of a byte vector.
fn copy_bytes(v: &Vec<u8>) -> (r: Vec<u8>)
    ensures
        r@ == v@,
{
    let mut r: Vec<u8> = Vec::new();
    let n = v.len();
    for i in 0..n
        invariant
            n == v@.len(),
            r@ =~= v@.subrange(0, i as int),
    {
        r.push(v[i]);
    }
    assert(r@ =~= v@);
    r
}

/// The bytes of the field name `file`.
fn file_field_name_bytes() -> (r: Vec<u8>)
    ensures
        r@ == file_field_name(),
{
    let mut v: Vec<u8> = Vec::new();
    v.push('f' as u8);
    v.push('i' as u8);
    v.push('l' as u8);
    v.push('e' as u8);
    assert(v@ =~= file_field_name());
    v
}

/// The bytes of the field name `purpose`.
fn purpose_field_name_bytes() -> (r: Vec<u8>)
    ensures
        r@ == purpose_field_name(),
{
    let mut v: Vec<u8> = Vec::new();
    v.push('p' as u8);
    v.push('u' as u8);
    v.push('r' as u8);
    v.push('p' as u8);
    v.push('o' as u8);
    v.push('s' as u8);
    v.push('e' as u8);
    assert(v@ =~= purpose_field_name());
    v
}

/// The bytes of the purpose value `fine-tune`.
fn fine_tune_value_bytes() -> (r: Vec<u8>)
    ensures
        r@ == fine_tune_value(),
{
    let mut v: Vec<u8> = Vec::new();
    v.push('f' as u8);
    v.push('i' as u8);
    v.push('n' as u8);
    v.push('e' as u8);
    v.push('-' as u8);
    v.push('t' as u8);
    v.push('u' as u8);
    v.push('n' as u8);
    v.push('e' as u8);
    assert(v@ =~= fine_tune_value());
    v
}

/// The purpose a raw multipart value denotes: `fine-tune` is recognized,
/// and anything else falls back to `assistants`.
pub fn parse_file_purpose(p: &Vec<u8>) -> (r: FilePurpose)
    ensures
        r == spec_parse_purpose(p@),
{
    let fine_tune = fine_tune_value_bytes();
    if eq_bytes(p, &fine_tune) {
        FilePurpose::FineTune
    } else {
        FilePurpose::Assistants
    }
}

/// Validates the fields of a multipart upload body: scans them in order and
/// requires a file, a filename and a purpose to be present, in that order
/// of complaint. Nothing may be sent upstream unless this succeeds.
pub fn prepare_file_upload(fields: &Vec<MultipartField>) -> (r: Result<FileUpload, AppError>)
    ensures
        r is Ok <==> spec_prepare_upload(fields@) is Ok,
        r matches Ok(u) ==> spec_prepare_upload(fields@) matches Ok(su) && u.filename@ == su.0
            && u.data@ == su.1 && u.purpose == su.2,
        r matches Err(e) ==> spec_prepare_upload(fields@) matches Err(m) && e.0@ == m,
{
    let file_name = file_field_name_bytes();
    let purpose_name = purpose_field_name_bytes();

    let mut file: Option<Vec<u8>> = None;
    let mut filename: Option<Vec<u8>> = None;
    let mut purpose: Option<Vec<u8>> = None;

    let n = fields.len();
    proof {
        assert(fields@.take(0) =~= Seq::<MultipartField>::empty());
    }
    for i in 0..n
        invariant
            n == fields@.len(),
            file_name@ == file_field_name(),
            purpose_name@ == purpose_field_name(),
            opt_bytes_view(file) == scan_fields(fields@.take(i as int)).file,
            opt_bytes_view(filename) == scan_fields(fields@.take(i as int)).filename,
            opt_bytes_view(purpose) == scan_fields(fields@.take(i as int)).purpose,
    {
        proof {
            assert(fields@.take(i + 1).drop_last() =~= fields@.take(i as int));
            assert(fields@.take(i + 1).last() == fields@[i as int]);
        }
        let field = &fields[i];
        if eq_bytes(&field.name, &file_name) {
            file = Some(copy_bytes(&field.data));
            filename = match &field.filename {
                Some(f) => Some(copy_bytes(f)),
                None => None,
            };
        } else if eq_bytes(&field.name, &purpose_name) {
            purpose = Some(copy_bytes(&field.data));
        }
    }
    proof {
        assert(fields@.take(n as int) =~= fields@);
    }

    let data = match file {
        Some(d) => d,
        None => {
            return Err(AppError(String::from_str("File not provided")));
        },
    };
    let filename = match filename {
        Some(f) => f,
        None => {
            return Err(AppError(String::from_str("Filename not provided")));
        },
    };
    let purpose = match purpose {
        Some(p) => p,
        None => {
            return Err(AppError(String::from_str("Purpose not provided")));
        },
    };
    let purpose = parse_file_purpose(&purpose);
    Ok(FileUpload { filename, data, purpose })
}

} // verus!
