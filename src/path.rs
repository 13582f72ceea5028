use vstd::prelude::*;
use crate::error::JobError;

verus! {

/// What `std::path::Path::extension` gives for a path.
pub uninterp spec fn path_extension(p: Seq<char>) -> Option<Seq<char>>;

/// What `std::path::Path::file_stem` gives for a path.
pub uninterp spec fn path_file_stem(p: Seq<char>) -> Option<Seq<char>>;

/// What `std::path::Path::with_file_name` gives for a path and a file name.
pub uninterp spec fn path_with_file_name(p: Seq<char>, name: Seq<char>) -> Seq<char>;

/// Relies on std::path::Path::extension: the text after the last dot of the
/// file name, unless that dot is the file name's first character (`.pdf`
/// has no extension) or there is none. Taken from a `&str`, it is valid text.
#[verifier::external_body]
fn extension_of(p: &str) -> (r: Option<String>)
    ensures
        match r {
            Some(e) => path_extension(p@) == Some(e@),
            None => path_extension(p@) is None,
        },
{
    match std::path::Path::new(p).extension() {
        Some(e) => Some(e.to_string_lossy().into_owned()),
        None => None,
    }
}

/// Relies on std::path::Path::file_stem: the file name without its
/// extension, if the path has a file name. Taken from a `&str`, it is valid
/// text.
#[verifier::external_body]
fn file_stem_of(p: &str) -> (r: Option<String>)
    ensures
        match r {
            Some(s) => path_file_stem(p@) == Some(s@),
            None => path_file_stem(p@) is None,
        },
{
    match std::path::Path::new(p).file_stem() {
        Some(s) => Some(s.to_string_lossy().into_owned()),
        None => None,
    }
}

/// Relies on std::path::Path::with_file_name: the path with its file name
/// replaced by `name` (in the same directory). Built from `&str`s, it is
/// valid text.
#[verifier::external_body]
fn with_file_name(p: &str, name: &str) -> (r: String)
    ensures
        r@ == path_with_file_name(p@, name@),
{
    std::path::Path::new(p).with_file_name(name).to_string_lossy().into_owned()
}

/// The extension of the documents that jobs accept.
pub open spec fn document_extension() -> Seq<char> {
    seq!['p', 'd', 'f']
}

/// The marker appended to the file stem of an output file.
pub open spec fn output_marker() -> Seq<char> {
    seq!['_', 's', 'h', 'u', 'f', 'f']
}

/// The file name of the output of an input whose file stem is `stem`.
pub open spec fn output_name(stem: Seq<char>) -> Seq<char> {
    stem + output_marker() + seq!['.'] + document_extension()
}

/// What a job makes of its input path: a rejection, or the output path.
pub open spec fn job_plan(input: Seq<char>) -> Result<Seq<char>, JobError> {
    if path_extension(input) != Some(document_extension()) {
        Err(JobError::NotADocument)
    } else {
        match path_file_stem(input) {
            None => Err(JobError::InvalidPath),
            Some(stem) => Ok(path_with_file_name(input, output_name(stem))),
        }
    }
}

/// Whether an extension (as `Path::extension` gives it) marks a document.
pub fn is_document_extension(ext: &Option<String>) -> (r: bool)
    ensures
        r == match ext {
            Some(e) => e@ == document_extension(),
            None => false,
        },
{
    match ext {
        Some(e) => {
            let s = e.as_str();
            let n = s.unicode_len();
            if n != 3 {
                return false;
            }
            let r = s.get_char(0) == 'p' && s.get_char(1) == 'd' && s.get_char(2) == 'f';
            proof {
                if r {
                    assert(e@ =~= document_extension());
                }
            }
            r
        },
        None => false,
    }
}

/// The output file name for an input whose file stem is `stem`:
/// the stem, the marker `_shuff`, and the document extension.
pub fn output_file_name(stem: &str) -> (r: String)
    ensures
        r@ == output_name(stem@),
{
    proof {
        reveal_strlit("_shuff.pdf");
    }
    let mut r = String::from_str(stem);
    r.append("_shuff.pdf");
    assert(r@ =~= output_name(stem@));
    r
}

/// Checks that `input` names a document and derives the path of its output:
/// same directory, the file stem suffixed with `_shuff`, same extension.
pub fn plan_job(input: &str) -> (r: Result<String, JobError>)
    ensures
        match job_plan(input@) {
            Ok(out) => r is Ok && r->Ok_0@ == out,
            Err(e) => r == Err::<String, JobError>(e),
        },
{
    let ext = extension_of(input);
    if !is_document_extension(&ext) {
        return Err(JobError::NotADocument);
    }
    match file_stem_of(input) {
        None => Err(JobError::InvalidPath),
        Some(stem) => {
            let name = output_file_name(stem.as_str());
            Ok(with_file_name(input, name.as_str()))
        },
    }
}

} // verus!
