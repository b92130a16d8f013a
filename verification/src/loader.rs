//! The document loader's pure side: recognizing files that name a PDF.
//!
//! Actually opening a document is the engine's work and happens outside
//! this crate; what belongs here is the path test the loader applies
//! before it hands a file to the engine.

use vstd::prelude::*;
use crate::paths;

verus! {

/// Loader of PDF documents.
pub struct PdfLoader;

impl PdfLoader {
    /// Whether the path names a PDF file: its file name carries a
    /// `.pdf` extension in any letter case.
    pub fn is_pdf(path: &str) -> (r: bool)
        ensures
            r == paths::spec_is_pdf_path(path@),
    {
        paths::is_pdf_file(path)
    }
}

} // verus!
