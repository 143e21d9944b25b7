use segmentation::error::PipelineError;
use segmentation::normalize::{page_count_from_pdf, preprocess};

/// Builds a real PDF with `n` empty pages and returns its bytes.
fn pdf_with_pages(n: usize) -> Vec<u8> {
    let mut doc = lopdf::Document::with_version("1.5");
    let pages_id = doc.new_object_id();
    let mut kids: Vec<lopdf::Object> = Vec::new();
    for _ in 0..n {
        let mut page = lopdf::Dictionary::new();
        page.set("Type", lopdf::Object::Name(b"Page".to_vec()));
        page.set("Parent", lopdf::Object::Reference(pages_id));
        let page_id = doc.add_object(lopdf::Object::Dictionary(page));
        kids.push(lopdf::Object::Reference(page_id));
    }
    let mut pages = lopdf::Dictionary::new();
    pages.set("Type", lopdf::Object::Name(b"Pages".to_vec()));
    pages.set("Kids", lopdf::Object::Array(kids));
    pages.set("Count", lopdf::Object::Integer(n as i64));
    doc.objects.insert(pages_id, lopdf::Object::Dictionary(pages));
    let mut catalog = lopdf::Dictionary::new();
    catalog.set("Type", lopdf::Object::Name(b"Catalog".to_vec()));
    catalog.set("Pages", lopdf::Object::Reference(pages_id));
    let catalog_id = doc.add_object(lopdf::Object::Dictionary(catalog));
    doc.trailer.set("Root", lopdf::Object::Reference(catalog_id));
    let mut bytes: Vec<u8> = Vec::new();
    doc.save_to(&mut bytes).expect("the document should serialize");
    bytes
}

#[test]
fn pages_of_a_real_pdf_are_counted() {
    assert_eq!(page_count_from_pdf(&pdf_with_pages(1)), Ok(1));
    assert_eq!(page_count_from_pdf(&pdf_with_pages(7)), Ok(7));
}

#[test]
fn bytes_that_are_no_pdf_are_a_corrupt_document() {
    let garbage = b"this is not a pdf at all".to_vec();
    assert_eq!(page_count_from_pdf(&garbage), Err(PipelineError::CorruptDocument));
}

#[test]
fn preprocess_names_the_destination_and_counts_pages() {
    let bytes = pdf_with_pages(7);
    let outcome = preprocess("bucket", "user-1", "task-9", "in/report.docx", &bytes).unwrap();
    assert_eq!(outcome.pdf_location, "s3://bucket/user-1/task-9/in/report.docx.pdf");
    assert_eq!(outcome.page_count, 7);
    assert_eq!(outcome.extension, "docx");
}

#[test]
fn preprocess_judges_the_file_type_before_reading_bytes() {
    let garbage = b"irrelevant".to_vec();
    assert_eq!(
        preprocess("b", "u", "t", "notes.txt", &garbage).unwrap_err(),
        PipelineError::UnsupportedFileType
    );
    assert_eq!(
        preprocess("b", "u", "t", "notes.docx", &garbage).unwrap_err(),
        PipelineError::CorruptDocument
    );
}
