//! Uploading recorded activity files and checking their processing status.
use vstd::prelude::*;
use vstd::string::StringExecFns;

use crate::api::{secret_of, spec_decimal, u32_to_string, v3, v3_url, AccessToken};

verus! {

/// The file format of an uploaded activity.
#[derive(Debug, Clone, Copy, PartialEq, Eq, Structural)]
pub enum DataType {
    Fit,
    FitGz,
    Tcx,
    TcxGz,
    Gpx,
    GpxGz,
}

impl DataType {
    /// The tag this format is submitted under in the upload form.
    pub open spec fn spec_text(self) -> Seq<char> {
        match self {
            DataType::Fit => "fit"@,
            DataType::FitGz => "fit_gz"@,
            DataType::Tcx => "tcx"@,
            DataType::TcxGz => "tcx_gz"@,
            DataType::Gpx => "gpx"@,
            DataType::GpxGz => "gpx_gz"@,
        }
    }

    /// The form tag of this format as an owned string.
    pub fn to_string(&self) -> (r: String)
        ensures
            r@ == self.spec_text(),
    {
        match self {
            DataType::Fit => String::from_str("fit"),
            DataType::FitGz => String::from_str("fit_gz"),
            DataType::Tcx => String::from_str("tcx"),
            DataType::TcxGz => String::from_str("tcx_gz"),
            DataType::Gpx => String::from_str("gpx"),
            DataType::GpxGz => String::from_str("gpx_gz"),
        }
    }
}

/// The request to create a new upload: the optional descriptive fields are
/// submitted only when present; the data type, external identifier and raw
/// payload are always submitted.
#[derive(Debug)]
pub struct CreateUpload {
    pub name: Option<String>,
    pub description: Option<String>,
    pub trainer: Option<bool>,
    pub commute: Option<bool>,
    pub data_type: DataType,
    pub external_id: String,
}

/// The processing status of an upload, as the remote reports it.
#[derive(Debug)]
pub struct Upload {
    pub id_str: Option<String>,
    pub activity_id: Option<usize>,
    pub external_id: Option<String>,
    pub id: Option<usize>,
    pub error: Option<String>,
    pub status: Option<String>,
}

/// The mathematical value of one multipart form part: its field name, its
/// text value, and for file parts the file name it is submitted under.
pub struct FormPartView {
    pub name: Seq<char>,
    pub value: Seq<char>,
    pub file_name: Option<Seq<char>>,
}

/// One part of a multipart upload form.
#[derive(Debug)]
pub struct FormPart {
    pub name: String,
    pub value: String,
    pub file_name: Option<String>,
}

impl View for FormPart {
    type V = FormPartView;

    open spec fn view(&self) -> FormPartView {
        FormPartView {
            name: self.name@,
            value: self.value@,
            file_name: match self.file_name {
                Some(f) => Some(f@),
                None => None,
            },
        }
    }
}

/// The views of a list of form parts, in order.
pub open spec fn parts_view(parts: Seq<FormPart>) -> Seq<FormPartView> {
    parts.map_values(|p: FormPart| p@)
}

/// A plain text part.
pub open spec fn spec_text_part(name: Seq<char>, value: Seq<char>) -> FormPartView {
    FormPartView { name, value, file_name: None }
}

/// An optional text field contributes one part when present and nothing at
/// all when absent.
pub open spec fn spec_opt_text(name: Seq<char>, value: Option<String>) -> Seq<FormPartView> {
    match value {
        Some(v) => seq![spec_text_part(name, v@)],
        None => Seq::<FormPartView>::empty(),
    }
}

/// The text a boolean flag is submitted as: "1" for true, "0" for false.
pub open spec fn spec_flag_text(b: bool) -> Seq<char> {
    if b {
        "1"@
    } else {
        "0"@
    }
}

/// An optional boolean flag contributes one "1"/"0" text part when present
/// and nothing at all when absent.
pub open spec fn spec_opt_flag(name: Seq<char>, value: Option<bool>) -> Seq<FormPartView> {
    match value {
        Some(b) => seq![spec_text_part(name, spec_flag_text(b))],
        None => Seq::<FormPartView>::empty(),
    }
}

/// The exact multipart form submitted for a new upload: the required
/// data_type and external_id text parts and the file part first, then each
/// optional field only if it is present, in a fixed order.
pub open spec fn spec_upload_form(upload: CreateUpload, data: Seq<char>) -> Seq<FormPartView> {
    seq![
        spec_text_part("data_type"@, upload.data_type.spec_text()),
        spec_text_part("external_id"@, upload.external_id@),
        FormPartView { name: "file"@, value: data, file_name: Some("file"@) },
    ] + spec_opt_text("name"@, upload.name) + spec_opt_text("description"@, upload.description)
        + spec_opt_flag("trainer"@, upload.trainer) + spec_opt_flag("commute"@, upload.commute)
}

/// Assemble the multipart form for creating an upload from the request's
/// fields and the raw file payload. The caller POSTs the form to
/// `upload_post_url` and hands the response to `handle_post_response`.
pub fn upload_form(upload: CreateUpload, data: String) -> (r: Vec<FormPart>)
    ensures
        parts_view(r@) == spec_upload_form(upload, data@),
{
    let CreateUpload { name, description, trainer, commute, data_type, external_id } = upload;
    let mut parts: Vec<FormPart> = Vec::new();
    parts.push(
        FormPart {
            name: String::from_str("data_type"),
            value: data_type.to_string(),
            file_name: None,
        },
    );
    parts.push(
        FormPart { name: String::from_str("external_id"), value: external_id, file_name: None },
    );
    parts.push(
        FormPart {
            name: String::from_str("file"),
            value: data,
            file_name: Some(String::from_str("file")),
        },
    );
    match name {
        Some(n) => parts.push(
            FormPart { name: String::from_str("name"), value: n, file_name: None },
        ),
        None => (),
    }
    match description {
        Some(d) => parts.push(
            FormPart { name: String::from_str("description"), value: d, file_name: None },
        ),
        None => (),
    }
    match trainer {
        Some(t) => {
            let value = if t {
                String::from_str("1")
            } else {
                String::from_str("0")
            };
            parts.push(FormPart { name: String::from_str("trainer"), value, file_name: None });
        },
        None => (),
    }
    match commute {
        Some(c) => {
            let value = if c {
                String::from_str("1")
            } else {
                String::from_str("0")
            };
            parts.push(FormPart { name: String::from_str("commute"), value, file_name: None });
        },
        None => (),
    }
    proof {
        assert(parts_view(parts@) =~= spec_upload_form(upload, data@));
    }
    parts
}

/// The URL for fetching an upload's processing status by its identifier.
pub fn upload_status_url(token: &AccessToken, upload_id: u32) -> (r: String)
    ensures
        r@ == v3_url(secret_of(Some(token)), "uploads/"@ + spec_decimal(upload_id as nat)),
{
    let path = String::from_str("uploads/").concat(u32_to_string(upload_id).as_str());
    v3(Some(token), path)
}

/// The URL for submitting a new upload.
pub fn upload_post_url(token: &AccessToken) -> (r: String)
    ensures
        r@ == v3_url(secret_of(Some(token)), "uploads"@),
{
    v3(Some(token), String::from_str("uploads"))
}

} // verus!
