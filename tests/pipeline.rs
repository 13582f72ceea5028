use pdf_shuffler::document::append_interleaved;
use pdf_shuffler::{is_document_extension, output_file_name, plan_job, shuffle_document, BatchState, JobError};
use qpdf::{QPdf, QPdfArray, QPdfScalar};

/// A PDF with `n` pages; page `i` is marked by a media box `100 + i` wide.
fn pdf_with_pages(n: usize) -> Vec<u8> {
    let mut objects: Vec<String> = Vec::new();
    objects.push("<< /Type /Catalog /Pages 2 0 R >>".to_string());
    let kids: Vec<String> = (0..n).map(|i| format!("{} 0 R", i + 3)).collect();
    objects.push(format!("<< /Type /Pages /Kids [{}] /Count {} >>", kids.join(" "), n));
    for i in 0..n {
        objects.push(format!(
            "<< /Type /Page /Parent 2 0 R /MediaBox [0 0 {} 200] >>",
            100 + i
        ));
    }
    let mut out = String::from("%PDF-1.4\n");
    let mut offsets = Vec::new();
    for (i, body) in objects.iter().enumerate() {
        offsets.push(out.len());
        out.push_str(&format!("{} 0 obj\n{}\nendobj\n", i + 1, body));
    }
    let xref_at = out.len();
    out.push_str(&format!("xref\n0 {}\n0000000000 65535 f \n", objects.len() + 1));
    for off in offsets {
        out.push_str(&format!("{:010} 00000 n \n", off));
    }
    out.push_str(&format!(
        "trailer\n<< /Size {} /Root 1 0 R >>\nstartxref\n{}\n%%EOF\n",
        objects.len() + 1,
        xref_at
    ));
    out.into_bytes()
}

/// The marks of the pages of a PDF, in page order.
fn page_marks(bytes: &[u8]) -> Vec<i64> {
    let doc = QPdf::read_from_memory(bytes).unwrap();
    doc.get_pages()
        .unwrap()
        .iter()
        .map(|p| {
            let mb: QPdfArray = p.get("/MediaBox").unwrap().into();
            let w: QPdfScalar = mb.get(2).unwrap().into();
            w.as_i64() - 100
        })
        .collect()
}

#[test]
fn sample_documents_read_back() {
    assert_eq!(page_marks(&pdf_with_pages(4)), vec![0, 1, 2, 3]);
}

#[test]
fn four_page_document_is_interleaved() {
    let out = shuffle_document(&pdf_with_pages(4)).unwrap();
    assert_eq!(page_marks(&out), vec![0, 3, 1, 2]);
}

#[test]
fn six_page_document_is_interleaved() {
    let out = shuffle_document(&pdf_with_pages(6)).unwrap();
    assert_eq!(page_marks(&out), vec![0, 5, 1, 4, 2, 3]);
}

#[test]
fn odd_page_document_is_rejected() {
    assert_eq!(shuffle_document(&pdf_with_pages(3)), Err(JobError::OddPageCount(3)));
}

#[test]
fn document_without_pages_is_rejected() {
    assert_eq!(shuffle_document(&pdf_with_pages(0)), Err(JobError::EmptyDocument));
}

#[test]
fn unreadable_document_fails_to_open() {
    assert_eq!(shuffle_document(b"this is not a document"), Err(JobError::OpenFailure));
}

#[test]
fn extension_check() {
    assert!(is_document_extension(&Some("pdf".to_string())));
    assert!(!is_document_extension(&Some("PDF".to_string())));
    assert!(!is_document_extension(&Some("txt".to_string())));
    assert!(!is_document_extension(&Some("pd".to_string())));
    assert!(!is_document_extension(&None));
}

#[test]
fn output_name_appends_marker() {
    assert_eq!(output_file_name("scan"), "scan_shuff.pdf");
    assert_eq!(output_file_name(""), "_shuff.pdf");
}

#[test]
fn output_path_sits_beside_input() {
    assert_eq!(plan_job("/home/me/scans/letter.pdf"), Ok("/home/me/scans/letter_shuff.pdf".to_string()));
    assert_eq!(plan_job("letter.pdf"), Ok("letter_shuff.pdf".to_string()));
    assert_eq!(plan_job("a/b.c.pdf"), Ok("a/b.c_shuff.pdf".to_string()));
}

#[test]
fn non_documents_are_rejected() {
    assert_eq!(plan_job("notes.txt"), Err(JobError::NotADocument));
    assert_eq!(plan_job("/tmp/readme"), Err(JobError::NotADocument));
    assert_eq!(plan_job("/tmp/scan.PDF"), Err(JobError::NotADocument));
    assert_eq!(plan_job("/tmp/.pdf"), Err(JobError::NotADocument));
}

/// What one worker does with its input, with the file's bytes in hand.
fn run_job(path: &str, bytes: &[u8]) -> Result<(String, Vec<u8>), JobError> {
    let out_path = plan_job(path)?;
    let out = shuffle_document(bytes)?;
    Ok((out_path, out))
}

#[test]
fn one_document_and_one_text_file() {
    let mut state = BatchState::new();
    let sender = state.submit(2).unwrap();
    let inputs = vec![("scan.pdf", pdf_with_pages(6)), ("notes.txt", b"some notes".to_vec())];
    for (path, bytes) in inputs {
        let ok = run_job(path, &bytes).is_ok();
        sender.clone().send(ok).unwrap();
    }
    state.poll(10);
    assert_eq!(state.pending_count(), 2);
    assert_eq!(state.processed_count(), 2);
    assert_eq!(state.successful_count(), 1);
    assert_eq!(state.failed_count(), 1);
    assert!(!state.is_processing());
    assert_eq!(state.summary(), "Processed 2 files: 1 successful, 1 failed");
}

#[test]
fn batch_with_invalid_paths_tallies_failures() {
    let paths = ["a.pdf", "b.txt", "c.pdf", "d.doc", "e.pdf"];
    let k = paths.len();
    let mut state = BatchState::new();
    let sender = state.submit(k).unwrap();
    for p in paths.iter() {
        let ok = run_job(p, &pdf_with_pages(2)).is_ok();
        sender.send(ok).unwrap();
    }
    state.poll(0);
    assert_eq!(state.processed_count(), k);
    assert_eq!(state.failed_count(), 2);
    assert_eq!(state.successful_count(), 3);
    assert_eq!(state.summary(), "Processed 5 files: 3 successful, 2 failed");
}

#[test]
fn pages_are_appended_in_reading_order() {
    let input = QPdf::read_from_memory(pdf_with_pages(8)).unwrap();
    let pages = input.get_pages().unwrap();
    let out = QPdf::empty();
    let (appended, _) = append_interleaved(&out, &pages);
    assert_eq!(appended, Ok(()));
    let bytes = out.writer().write_to_memory().unwrap();
    assert_eq!(page_marks(&bytes), vec![0, 7, 1, 6, 2, 5, 3, 4]);
}

#[test]
fn odd_page_list_appends_nothing() {
    let input = QPdf::read_from_memory(pdf_with_pages(5)).unwrap();
    let pages = input.get_pages().unwrap();
    let out = QPdf::empty();
    let (appended, _) = append_interleaved(&out, &pages);
    assert_eq!(appended, Err(JobError::OddPageCount(5)));
    assert_eq!(out.get_num_pages().unwrap(), 0);
}
