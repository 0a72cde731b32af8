//! The failure taxonomy of the extraction pipeline.
//!
//! Three kinds of failure are distinguished and never downgraded into one
//! another: a structure failure (the tree does not have the expected shape),
//! an unrecognized value (a string outside a closed vocabulary), and a
//! missing field (a required table label was absent).  Numeric magnitudes
//! that fail to parse, and markup text that fails to parse at all, keep
//! kinds of their own.

use vstd::prelude::*;

verus! {

/// Error payload of an enumeration decoder: the input was outside the
/// decoder's closed vocabulary.
pub type EnumParseError = ();

/// Missing-field failure: a required label was absent from an extracted
/// table, or a text did not hold all of its required components.
#[derive(Debug, Clone)]
pub struct MissingDataError {
    /// The table label (or the raw text) whose required content was absent.
    pub label: String,
}

/// Structure failure: the document tree does not have the expected shape at
/// the expected position.
#[derive(Debug, Clone)]
pub struct InvalidDataError;

/// Every failure the extraction pipeline can report.
#[derive(Debug)]
pub enum MPXError {
    /// The markup text could not be parsed into a document tree at all.
    HTMLParser(html_parser::Error),
    /// A numeric magnitude was malformed or out of range.
    ParseIntError,
    /// A string fell outside a closed vocabulary (enumeration word, unit
    /// word, or sentinel word).
    EnumParseError(EnumParseError),
    /// A required table label or text component was absent.
    MissingDataError(MissingDataError),
    /// The document tree did not have the expected shape.
    InvalidDataError(InvalidDataError),
}

/// Mathematical image of an `MPXError`; contracts speak of this view.
#[verifier::ext_equal]
pub enum ErrorView {
    /// The markup text itself failed to parse.
    Document,
    /// A numeric magnitude was malformed or out of range.
    NumberFormat,
    /// A string fell outside a closed vocabulary.
    Unrecognized,
    /// The named label (or text) lacked required content.
    Missing { label: Seq<char> },
    /// The tree did not have the expected shape.
    Structure,
}

impl View for MPXError {
    type V = ErrorView;

    open spec fn view(&self) -> ErrorView {
        match self {
            MPXError::HTMLParser(_) => ErrorView::Document,
            MPXError::ParseIntError => ErrorView::NumberFormat,
            MPXError::EnumParseError(_) => ErrorView::Unrecognized,
            MPXError::MissingDataError(m) => ErrorView::Missing { label: m.label@ },
            MPXError::InvalidDataError(_) => ErrorView::Structure,
        }
    }
}

/// The image of a pipeline result: the value by its view, the error by its
/// kind.
pub open spec fn res_view<T: View>(r: Result<T, MPXError>) -> Result<T::V, ErrorView> {
    match r {
        Ok(t) => Ok(t@),
        Err(e) => Err(e@),
    }
}

impl MPXError {
    /// A missing-field failure naming the absent label.
    pub fn missing(label: &str) -> (r: MPXError)
        ensures
            r@ == (ErrorView::Missing { label: label@ }),
    {
        MPXError::MissingDataError(MissingDataError { label: label.to_owned() })
    }

    /// A structure failure.
    pub fn structure() -> (r: MPXError)
        ensures
            r@ == ErrorView::Structure,
    {
        MPXError::InvalidDataError(InvalidDataError)
    }

    /// An unrecognized-value failure.
    pub fn unrecognized() -> (r: MPXError)
        ensures
            r@ == ErrorView::Unrecognized,
    {
        MPXError::EnumParseError(())
    }

    /// A malformed-number failure.
    pub fn number_format() -> (r: MPXError)
        ensures
            r@ == ErrorView::NumberFormat,
    {
        MPXError::ParseIntError
    }
}

} // verus!
