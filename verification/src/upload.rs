//! The request that carries the file: one multipart form with one part.

use vstd::prelude::*;
use reqwest::multipart::{Form, Part};
use crate::payload::{FilePayload, FilePayloadView};

verus! {

/// A multipart form of `reqwest`.
#[verifier::external_type_specification]
#[verifier::external_body]
pub struct ExForm(reqwest::multipart::Form);

/// One part of a multipart form of `reqwest`.
#[verifier::external_type_specification]
#[verifier::external_body]
pub struct ExPart(reqwest::multipart::Part);

/// Name of the form field that carries the file.
pub const FILE_FIELD: &'static str = "file";

/// The bytes that a part carries as its body.
pub uninterp spec fn part_bytes(part: Part) -> Seq<u8>;

/// The filename parameter of a part, if one was set.
pub uninterp spec fn part_file_name(part: Part) -> Option<Seq<char>>;

/// The fields of a form in the order they were added, each as its field name,
/// its filename parameter and its bytes.
pub uninterp spec fn form_fields(form: Form) -> Seq<(Seq<char>, Option<Seq<char>>, Seq<u8>)>;

/// Calls `Form::new`, which makes a form without any field.
#[verifier::external_body]
fn empty_form() -> (form: Form)
    ensures
        form_fields(form).len() == 0,
{
    Form::new()
}

/// Calls `Part::bytes`, which makes a part whose body is the given bytes and
/// which has no filename parameter yet.
#[verifier::external_body]
fn bytes_part(bytes: Vec<u8>) -> (part: Part)
    ensures
        part_bytes(part) == bytes@,
        part_file_name(part) is None,
{
    Part::bytes(bytes)
}

/// Calls `Part::file_name`, which sets the filename parameter and leaves the
/// body as it was.
#[verifier::external_body]
fn named_part(part: Part, file_name: String) -> (named: Part)
    ensures
        part_bytes(named) == part_bytes(part),
        part_file_name(named) == Some(file_name@),
{
    part.file_name(file_name)
}

/// Calls `Form::part`, which appends the part under the given field name
/// after the fields that the form already has.
#[verifier::external_body]
fn with_part(form: Form, field: String, part: Part) -> (extended: Form)
    ensures
        form_fields(extended) == form_fields(form).push((field@, part_file_name(part), part_bytes(part))),
{
    form.part(field, part)
}

/// What is sent: the resolved target and the file. The target is fixed when
/// the request is made and travels with it unchanged.
#[derive(Debug, PartialEq, Eq)]
pub struct UploadRequest {
    pub url: String,
    pub payload: FilePayload,
}

/// Mathematical content of an [`UploadRequest`].
pub ghost struct UploadRequestView {
    pub url: Seq<char>,
    pub payload: FilePayloadView,
}

impl View for UploadRequest {
    type V = UploadRequestView;

    open spec fn view(&self) -> UploadRequestView {
        UploadRequestView { url: self.url@, payload: self.payload@ }
    }
}

/// The fields of the form that carries `payload`: exactly one, named `file`,
/// with the display name as its filename and the file's bytes as its body.
pub open spec fn fields_of(payload: FilePayloadView) -> Seq<(Seq<char>, Option<Seq<char>>, Seq<u8>)> {
    seq![(FILE_FIELD@, Some(payload.name), payload.bytes)]
}

/// Builds the multipart form for a payload.
pub fn multipart_form(payload: FilePayload) -> (form: Form)
    ensures
        form_fields(form) == fields_of(payload@),
{
    let part = named_part(bytes_part(payload.bytes), payload.name);
    let form = with_part(empty_form(), String::from_str(FILE_FIELD), part);
    assert(form_fields(form) =~= fields_of(payload@));
    form
}

/// The form for any payload has a single field, and that field is `file`.
pub proof fn lemma_single_file_field(payload: FilePayloadView)
    ensures
        fields_of(payload).len() == 1,
        fields_of(payload)[0].0 == "file"@,
        fields_of(payload)[0].1 == Some(payload.name),
        fields_of(payload)[0].2 == payload.bytes,
{
}

} // verus!
