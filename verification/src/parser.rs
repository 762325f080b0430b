//! Parsers for the XML documents the E-utilities return.

pub mod esearch;
pub mod pubmed;
