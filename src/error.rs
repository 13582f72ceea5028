use vstd::prelude::*;

verus! {

/// Why one job failed. Every failure is terminal for its job.
#[derive(Debug, Clone, Copy, PartialEq, Eq, Structural)]
pub enum JobError {
    /// The input path does not have the document extension.
    NotADocument,
    /// No file stem can be taken from the input path.
    InvalidPath,
    /// The document engine could not open the input or list its pages.
    OpenFailure,
    /// The document has no pages.
    EmptyDocument,
    /// The document has an odd number of pages (the count is carried).
    OddPageCount(usize),
    /// The document engine could not build or serialize the output.
    SerializeFailure,
    /// The output bytes could not be written.
    WriteFailure,
}

} // verus!
