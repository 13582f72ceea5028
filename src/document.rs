use vstd::prelude::*;
use qpdf::{QPdf, QPdfDictionary, QPdfError, QPdfWriter};
use crate::error::JobError;
use crate::reorder::{count_rejection, interleaved, reorder};

verus! {

#[verifier::external_type_specification]
#[verifier::external_body]
pub struct ExQPdf(QPdf);

#[verifier::external_type_specification]
#[verifier::external_body]
pub struct ExQPdfDictionary(QPdfDictionary);

#[verifier::external_type_specification]
#[verifier::external_body]
pub struct ExQPdfError(QPdfError);

#[verifier::external_type_specification]
#[verifier::external_body]
pub struct ExQPdfWriter(QPdfWriter);

/// What parsing a PDF held in memory and listing its pages gives: the
/// number of pages, or `None` where either step fails.
pub uninterp spec fn pdf_page_count(bytes: Seq<u8>) -> Option<nat>;

/// Relies on qpdf::QPdf::read_from_memory, which parses a PDF held in
/// memory, and qpdf::QPdf::get_pages, which lists the page objects of the
/// parsed document in order. Both depend on the bytes alone.
#[verifier::external_body]
fn read_pages(bytes: &[u8]) -> (r: Result<(QPdf, Vec<QPdfDictionary>), QPdfError>)
    ensures
        r is Ok <==> pdf_page_count(bytes@) is Some,
        r is Ok ==> r->Ok_0.1@.len() == pdf_page_count(bytes@)->0,
{
    let doc = QPdf::read_from_memory(bytes)?;
    let pages = doc.get_pages()?;
    Ok((doc, pages))
}

/// Relies on qpdf::QPdf::empty: a new document without pages.
#[verifier::external_body]
fn empty_document() -> (r: QPdf) {
    QPdf::empty()
}

/// Relies on qpdf::QPdf::add_page: appends a page (which may belong to
/// another document) after the last one, sharing its objects.
#[verifier::external_body]
fn append_page(doc: &QPdf, page: &QPdfDictionary) -> (r: Result<(), QPdfError>) {
    doc.add_page(page, false)
}

/// Relies on qpdf::QPdf::writer: a writer of the document with default settings.
#[verifier::external_body]
fn document_writer(doc: &QPdf) -> (r: QPdfWriter) {
    doc.writer()
}

/// Relies on qpdf::QPdfWriter::write_to_memory: serializes the document.
#[verifier::external_body]
fn write_to_bytes(w: &QPdfWriter) -> (r: Result<Vec<u8>, QPdfError>) {
    w.write_to_memory()
}

/// References to the pages, in the same order.
fn page_refs(pages: &Vec<QPdfDictionary>) -> (r: Vec<&QPdfDictionary>)
    ensures
        r@.len() == pages@.len(),
        forall|i: int| 0 <= i < pages@.len() ==> *#[trigger] r@[i] == pages@[i],
{
    let mut refs: Vec<&QPdfDictionary> = Vec::with_capacity(pages.len());
    let mut i: usize = 0;
    while i < pages.len()
        invariant
            i <= pages@.len(),
            refs@.len() == i,
            forall|q: int| 0 <= q < i ==> *#[trigger] refs@[q] == pages@[q],
        decreases pages@.len() - i,
    {
        refs.push(&pages[i]);
        i += 1;
    }
    refs
}

/// Appends `pages` to `out` in front/back reading order, stopping at the
/// first page that the engine refuses.
///
/// The second part of the result is the sequence of pages handed to the
/// engine, in call order: all of `interleaved(pages)` on success, else the
/// part of it up to the refused page. A rejected page count appends nothing.
pub fn append_interleaved(out: &QPdf, pages: &Vec<QPdfDictionary>) -> (r: (
    Result<(), JobError>,
    Ghost<Seq<QPdfDictionary>>,
))
    ensures
        match count_rejection(pages@.len()) {
            Some(e) => r.0 == Err::<(), JobError>(e) && r.1@ == Seq::<QPdfDictionary>::empty(),
            None => {
                &&& r.1@.len() <= pages@.len()
                &&& r.1@ == interleaved(pages@).take(r.1@.len() as int)
                &&& r.0 is Ok ==> r.1@ == interleaved(pages@)
                &&& r.0 is Err ==> r.0 == Err::<(), JobError>(JobError::SerializeFailure)
                    && r.1@.len() > 0
            },
        },
{
    let refs = page_refs(pages);
    let order = match reorder(&refs) {
        Ok(o) => o,
        Err(e) => return (Err(e), Ghost(Seq::empty())),
    };
    let n = order.len();
    let ghost target = interleaved(pages@);
    proof {
        assert forall|q: int| 0 <= q < n implies *#[trigger] order@[q] == target[q] by {
            let j = crate::reorder::source_index(n as int, q);
            assert(order@[q] == refs@[j]);
        }
    }
    let ghost mut handed: Seq<QPdfDictionary> = Seq::empty();
    let mut k: usize = 0;
    while k < n
        invariant
            n == order@.len(),
            n == pages@.len(),
            count_rejection(pages@.len()) is None,
            target == interleaved(pages@),
            forall|q: int| 0 <= q < n ==> *#[trigger] order@[q] == target[q],
            k <= n,
            handed == target.take(k as int),
        decreases n - k,
    {
        let page: &QPdfDictionary = order[k];
        let res = append_page(out, page);
        proof {
            handed = handed.push(*page);
            assert(handed =~= target.take(k + 1));
        }
        if res.is_err() {
            assert(handed == target.take(handed.len() as int));
            return (Err(JobError::SerializeFailure), Ghost(handed));
        }
        k += 1;
    }
    assert(handed =~= target);
    (Ok(()), Ghost(handed))
}

/// Rewrites a PDF held in memory so that its pages stand in front/back
/// reading order (see `append_interleaved`), and serializes the result.
///
/// A document that cannot be parsed or whose pages cannot be listed gives
/// `OpenFailure`; a page count of zero or an odd one is rejected as
/// `reorder` rejects it; past that, the result is the serialized output or,
/// where the engine refuses to append or to write, `SerializeFailure`.
pub fn shuffle_document(input: &[u8]) -> (r: Result<Vec<u8>, JobError>)
    ensures
        match pdf_page_count(input@) {
            None => r == Err::<Vec<u8>, JobError>(JobError::OpenFailure),
            Some(n) => match count_rejection(n) {
                Some(e) => r == Err::<Vec<u8>, JobError>(e),
                None => r is Ok || r == Err::<Vec<u8>, JobError>(JobError::SerializeFailure),
            },
        },
{
    let (_doc, pages) = match read_pages(input) {
        Ok(p) => p,
        Err(_) => return Err(JobError::OpenFailure),
    };
    let out = empty_document();
    let (appended, _handed) = append_interleaved(&out, &pages);
    match appended {
        Ok(()) => {},
        Err(e) => return Err(e),
    }
    let writer = document_writer(&out);
    match write_to_bytes(&writer) {
        Ok(bytes) => Ok(bytes),
        Err(_) => Err(JobError::SerializeFailure),
    }
}

} // verus!
