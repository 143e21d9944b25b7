//! File-type validation: an input is accepted only when its extension is on
//! the allow-list, compared case-insensitively. Validation runs before any
//! network call; everything here is pure.

use vstd::prelude::*;

use crate::error::PipelineError;
use crate::text::{
    ends_with, ends_with_str, eq_ci, extension_of, extension_of_str, lower_seq, str_eq,
};

verus! {

/// The extensions the pipeline accepts, compared after ASCII lower-casing.
pub open spec fn allowed_extension(e: Seq<char>) -> bool {
    ||| lower_seq(e) == lower_seq("pdf"@)
    ||| lower_seq(e) == lower_seq("docx"@)
    ||| lower_seq(e) == lower_seq("doc"@)
    ||| lower_seq(e) == lower_seq("pptx"@)
    ||| lower_seq(e) == lower_seq("ppt"@)
    ||| lower_seq(e) == lower_seq("xlsx"@)
    ||| lower_seq(e) == lower_seq("xls"@)
}

/// The reported content type: `application/` followed by the extension as it
/// stands in the name (not lower-cased).
pub open spec fn mime_of(name: Seq<char>) -> Seq<char> {
    "application/"@ + extension_of(name)
}

/// Whether the named file may enter the pipeline, and its content type.
pub fn is_valid_file_type(original_file_name: &str) -> (r: (bool, String))
    ensures
        r.0 == allowed_extension(extension_of(original_file_name@)),
        r.1@ == mime_of(original_file_name@),
{
    let ext = extension_of_str(original_file_name);
    let e = ext.as_str();
    let valid = eq_ci(e, "pdf") || eq_ci(e, "docx") || eq_ci(e, "doc") || eq_ci(e, "pptx")
        || eq_ci(e, "ppt") || eq_ci(e, "xlsx") || eq_ci(e, "xls");
    let mut mime = "application/".to_owned();
    mime.append(ext.as_str());
    (valid, mime)
}

/// Validates the name and turns a rejection into `UnsupportedFileType`; on
/// success hands back the extension found in the name.
pub fn validate_file_type(original_file_name: &str) -> (r: Result<String, PipelineError>)
    ensures
        r is Ok <==> allowed_extension(extension_of(original_file_name@)),
        r matches Ok(e) ==> e@ == extension_of(original_file_name@),
        r matches Err(e) ==> e == PipelineError::UnsupportedFileType,
{
    let (valid, _mime) = is_valid_file_type(original_file_name);
    if valid {
        Ok(extension_of_str(original_file_name))
    } else {
        Err(PipelineError::UnsupportedFileType)
    }
}

/// Whether the input must go through the conversion utility: everything but
/// an exact `pdf` extension does (an upper-case `PDF` is a valid file type but is
/// still handed to the converter, as the converter is keyed on the exact
/// extension).
pub fn needs_conversion(extension: &str) -> (r: bool)
    ensures
        r == (extension@ != "pdf"@),
{
    !str_eq(extension, "pdf")
}

/// Where the normalized PDF is uploaded:
/// `s3://{bucket}/{user_id}/{task_id}/{input_location}`, with `.pdf` appended
/// when the input location does not already end in it.
pub open spec fn pdf_destination_spec(
    bucket: Seq<char>,
    user_id: Seq<char>,
    task_id: Seq<char>,
    input_location: Seq<char>,
) -> Seq<char> {
    "s3://"@ + bucket + "/"@ + user_id + "/"@ + task_id + "/"@ + (if ends_with(
        input_location,
        ".pdf"@,
    ) {
        input_location
    } else {
        input_location + ".pdf"@
    })
}

/// Builds the destination location of the normalized PDF.
pub fn pdf_destination(bucket: &str, user_id: &str, task_id: &str, input_location: &str) -> (r:
    String)
    ensures
        r@ == pdf_destination_spec(bucket@, user_id@, task_id@, input_location@),
{
    let mut r = "s3://".to_owned();
    r.append(bucket);
    r.append("/");
    r.append(user_id);
    r.append("/");
    r.append(task_id);
    r.append("/");
    r.append(input_location);
    if !ends_with_str(input_location, ".pdf") {
        r.append(".pdf");
    }
    proof {
        assert(r@ =~= pdf_destination_spec(bucket@, user_id@, task_id@, input_location@));
    }
    r
}

} // verus!
