use vstd::prelude::*;
use crate::inv_file::SphinxInvVersion;

verus! {

#[verifier::external_type_specification]
#[verifier::external_body]
pub struct ExIoError(std::io::Error);

#[verifier::external_type_specification]
#[verifier::external_body]
pub struct ExFromUtf8Error(std::string::FromUtf8Error);

/// Why a whole inventory could not be read.
#[derive(Debug)]
pub enum SphinxInvError {
    IoError(std::io::Error),
    Utf8ParseError(std::string::FromUtf8Error),
    ParseError(RecordParseError),
    InvalidHeaderError(InvalidHeaderError),
}

/// A role text that names no role of its domain.
#[derive(Debug, Clone, Copy, PartialEq, Eq, Structural)]
pub enum RoleParseError {
    VariantNotFound,
}

/// Why one record line could not be read.
#[derive(Debug)]
pub enum RecordParseError {
    InvalidDomain(String),
    InvalidRowPriority(String),
    InvalidRole(RoleParseError),
    MalformedDomainField(String),
    MalformedType(String),
    MalformedRecord(String),
}

/// Why the header of an inventory was refused.
#[derive(Debug)]
pub enum InvalidHeaderError {
    InvalidSphinxVerison(String),
    UnsupportedSphinxVersion(SphinxInvVersion),
    IoError(std::io::Error),
    InvalidCompressionMethod(String),
}

/// `RecordParseError` with its texts as character sequences.
pub enum RecordErrorView {
    InvalidDomain(Seq<char>),
    InvalidRowPriority(Seq<char>),
    InvalidRole,
    MalformedDomainField(Seq<char>),
    MalformedType(Seq<char>),
    MalformedRecord(Seq<char>),
}

/// `InvalidHeaderError` with its texts as character sequences; an I/O error
/// is only told apart by its variant.
pub enum HeaderErrorView {
    InvalidSphinxVerison(Seq<char>),
    UnsupportedSphinxVersion(SphinxInvVersion),
    IoError,
    InvalidCompressionMethod(Seq<char>),
}

/// `SphinxInvError` seen through the views of its parts; the errors of I/O and
/// of UTF-8 decoding are only told apart by their variant.
pub enum InvErrorView {
    IoError,
    Utf8ParseError,
    ParseError(RecordErrorView),
    InvalidHeaderError(HeaderErrorView),
}

impl View for RecordParseError {
    type V = RecordErrorView;

    open spec fn view(&self) -> RecordErrorView {
        match self {
            RecordParseError::InvalidDomain(s) => RecordErrorView::InvalidDomain(s@),
            RecordParseError::InvalidRowPriority(s) => RecordErrorView::InvalidRowPriority(s@),
            RecordParseError::InvalidRole(_) => RecordErrorView::InvalidRole,
            RecordParseError::MalformedDomainField(s) => RecordErrorView::MalformedDomainField(s@),
            RecordParseError::MalformedType(s) => RecordErrorView::MalformedType(s@),
            RecordParseError::MalformedRecord(s) => RecordErrorView::MalformedRecord(s@),
        }
    }
}

impl View for InvalidHeaderError {
    type V = HeaderErrorView;

    open spec fn view(&self) -> HeaderErrorView {
        match self {
            InvalidHeaderError::InvalidSphinxVerison(s) => HeaderErrorView::InvalidSphinxVerison(s@),
            InvalidHeaderError::UnsupportedSphinxVersion(v) => HeaderErrorView::UnsupportedSphinxVersion(*v),
            InvalidHeaderError::IoError(_) => HeaderErrorView::IoError,
            InvalidHeaderError::InvalidCompressionMethod(s) => HeaderErrorView::InvalidCompressionMethod(s@),
        }
    }
}

impl View for SphinxInvError {
    type V = InvErrorView;

    open spec fn view(&self) -> InvErrorView {
        match self {
            SphinxInvError::IoError(_) => InvErrorView::IoError,
            SphinxInvError::Utf8ParseError(_) => InvErrorView::Utf8ParseError,
            SphinxInvError::ParseError(e) => InvErrorView::ParseError(e@),
            SphinxInvError::InvalidHeaderError(e) => InvErrorView::InvalidHeaderError(e@),
        }
    }
}

} // verus!
