//! Wrappers for the Entrez E-utilities and verified parsers for the XML
//! documents they return.
//!
//! Two kinds of tools live here. The [`eutils`] module holds the request
//! builders [`eutils::ESearch`] and [`eutils::EFetch`], which assemble
//! request URLs from their parameters; issuing the request over HTTP is
//! transport work outside this library. The [`parser`] module converts the
//! raw XML text a request returns into typed records; its central piece is
//! [`parser::pubmed::PubmedArticleSet::read`], a recursive-descent walker
//! over the document tree held in [`xml`]. The [`errors`] module carries the
//! failures a caller can see.

pub mod errors;
pub mod eutils;
pub mod parser;
pub mod xml;
