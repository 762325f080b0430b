//! The failures a caller of this library can see.
//!
//! Parsing a fetched document fails in exactly two ways: the text was not
//! well-formed XML (a structural failure, carried unchanged from the XML
//! reader that found it), or the document was well-formed but held no element
//! with the expected root tag anywhere among its descendants. Everything else
//! — unknown child tags, absent optional fields, empty collections — is
//! absorbed into absent or empty record fields and is never an error.

use vstd::prelude::*;

use quick_xml::DeError as QuickXmlDeError;
use reqwest::Error as ReqwestError;
use roxmltree::Error as RoxmltreeError;

verus! {

/// The structural error type of the tree-based XML reader.
#[verifier::external_type_specification]
#[verifier::external_body]
pub struct ExRoxmltreeError(RoxmltreeError);

/// The error type of the serde-based XML reader.
#[verifier::external_type_specification]
#[verifier::external_body]
pub struct ExQuickXmlDeError(QuickXmlDeError);

/// The error type of the HTTP client.
#[verifier::external_type_specification]
#[verifier::external_body]
pub struct ExReqwestError(ReqwestError);

/// Why a fetched document could not be turned into records.
#[derive(Debug)]
pub enum ParsingErrorType {
    /// The text was not well-formed XML: a malformed document, reported by the
    /// serde-based reader. Carried unchanged.
    QXML(QuickXmlDeError),
    /// The text was not well-formed XML: a malformed document, reported by the
    /// tree-based reader and carried unchanged. A document type declaration
    /// is allowed and not validated against, so one is never this failure.
    RXML(RoxmltreeError),
    /// The document was well-formed XML but no element with the expected root
    /// tag was found among its descendants.
    MissingRoot,
}

/// A failure surfaced to the caller: either the transport failed before any
/// document existed, or the document could not be parsed.
#[derive(Debug)]
pub enum Error {
    ConnectionError(ReqwestError),
    ParsingError(ParsingErrorType),
}

impl From<ReqwestError> for Error {
    fn from(re: ReqwestError) -> (r: Self) {
        Error::ConnectionError(re)
    }
}

impl vstd::std_specs::convert::FromSpecImpl<ReqwestError> for Error {
    open spec fn obeys_from_spec() -> bool {
        true
    }

    open spec fn from_spec(re: ReqwestError) -> Self {
        Error::ConnectionError(re)
    }
}

impl From<QuickXmlDeError> for Error {
    fn from(e: QuickXmlDeError) -> (r: Self) {
        Error::ParsingError(ParsingErrorType::QXML(e))
    }
}

impl vstd::std_specs::convert::FromSpecImpl<QuickXmlDeError> for Error {
    open spec fn obeys_from_spec() -> bool {
        true
    }

    open spec fn from_spec(e: QuickXmlDeError) -> Self {
        Error::ParsingError(ParsingErrorType::QXML(e))
    }
}

impl From<RoxmltreeError> for Error {
    fn from(e: RoxmltreeError) -> (r: Self) {
        Error::ParsingError(ParsingErrorType::RXML(e))
    }
}

impl vstd::std_specs::convert::FromSpecImpl<RoxmltreeError> for Error {
    open spec fn obeys_from_spec() -> bool {
        true
    }

    open spec fn from_spec(e: RoxmltreeError) -> Self {
        Error::ParsingError(ParsingErrorType::RXML(e))
    }
}

} // verus!
