//! The format normalizer's computations: once the worker has the candidate
//! PDF's bytes in hand (converted first when the extension asks for it), this
//! validates the file type, counts the pages, and fixes where the normalized PDF
//! is uploaded. The conversion utility itself and all transfers stay with the
//! worker.

use vstd::prelude::*;

use crate::adapters::{pdf_page_count, pdf_page_total};
use crate::error::PipelineError;
use crate::filetype::{
    allowed_extension, is_valid_file_type, pdf_destination, pdf_destination_spec,
};
use crate::text::{extension_of, extension_of_str};

verus! {

/// What preprocessing persists about the normalized document.
#[derive(Debug)]
pub struct PreprocessOutcome {
    /// Where the normalized PDF is uploaded.
    pub pdf_location: String,
    pub page_count: usize,
    /// The extension the input arrived with.
    pub extension: String,
}

/// Counts the pages of a PDF held in memory; bytes that do not parse as a
/// PDF are a corrupt document.
pub fn page_count_from_pdf(pdf_bytes: &Vec<u8>) -> (r: Result<usize, PipelineError>)
    ensures
        r is Ok <==> pdf_page_total(pdf_bytes@) is Some,
        r matches Ok(n) ==> pdf_page_total(pdf_bytes@) == Some(n as nat),
        r matches Err(e) ==> e == PipelineError::CorruptDocument,
{
    match pdf_page_count(pdf_bytes) {
        Some(n) => Ok(n),
        None => Err(PipelineError::CorruptDocument),
    }
}

/// The pure part of preprocessing: validates the input's extension, counts
/// the normalized PDF's pages, and names the upload destination. Succeeds
/// exactly when the extension is on the allow-list and the bytes parse as a
/// PDF; the file type is judged first, so an unsupported one is reported even
/// for unreadable bytes.
pub fn preprocess(
    bucket: &str,
    user_id: &str,
    task_id: &str,
    input_location: &str,
    pdf_bytes: &Vec<u8>,
) -> (r: Result<PreprocessOutcome, PipelineError>)
    ensures
        r is Ok <==> allowed_extension(extension_of(input_location@)) && pdf_page_total(
            pdf_bytes@,
        ) is Some,
        r matches Ok(o) ==> {
            &&& o.pdf_location@ == pdf_destination_spec(
                bucket@,
                user_id@,
                task_id@,
                input_location@,
            )
            &&& Some(o.page_count as nat) == pdf_page_total(pdf_bytes@)
            &&& o.extension@ == extension_of(input_location@)
        },
        r matches Err(e) ==> if !allowed_extension(extension_of(input_location@)) {
            e == PipelineError::UnsupportedFileType
        } else {
            e == PipelineError::CorruptDocument
        },
{
    let (valid, _mime) = is_valid_file_type(input_location);
    if !valid {
        return Err(PipelineError::UnsupportedFileType);
    }
    let page_count = match page_count_from_pdf(pdf_bytes) {
        Ok(n) => n,
        Err(e) => {
            return Err(e);
        },
    };
    let pdf_location = pdf_destination(bucket, user_id, task_id, input_location);
    let extension = extension_of_str(input_location);
    Ok(PreprocessOutcome { pdf_location, page_count, extension })
}

} // verus!
