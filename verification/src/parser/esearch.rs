//! Records for the XML document an ESearch request returns.
//!
//! The document is flat: a count, paging values, the list of matching
//! identifiers and the query translation. Reading that document is done with a
//! serde-based XML reader outside this library; the records here are the typed
//! result handed back to callers.

use vstd::prelude::*;

verus! {

/// The list of matching record identifiers.
#[derive(Debug, PartialEq)]
pub struct IdList {
    pub ids: Vec<String>,
}

/// One term translation applied by the search engine.
#[derive(Debug, PartialEq)]
pub struct Translation {
    pub from: String,
    pub to: String,
}

/// All term translations applied to the query.
#[derive(Debug, PartialEq)]
pub struct TranslationSet {
    pub translation: Vec<Translation>,
}

/// The boolean structure of the translated query.
#[derive(Debug, PartialEq)]
pub struct TranslationStack {
    pub term_set: Vec<TermSet>,
    pub op: Vec<String>,
}

/// One search term with the field it was applied to.
#[derive(Debug, PartialEq)]
pub struct TermSet {
    pub term: String,
    pub field: String,
    pub count: u64,
    pub explode: String,
}

/// The result of an ESearch request.
#[derive(Debug, PartialEq)]
pub struct ESearchResult {
    pub count: u64,
    pub ret_max: u64,
    pub ret_start: u64,
    pub query_key: u64,
    pub web_env: String,
    pub id_list: IdList,
    pub query_translation: String,
}

} // verus!
