//! The PubMed article reader: typed records built from the XML document an
//! EFetch request returns, and the record builders that walk the document
//! tree.
//!
//! A document looks like
//! ```xml
//! <?xml version="1.0" ?>
//! <!DOCTYPE PubmedArticleSet PUBLIC "-//NLM//DTD PubMedArticle, 1st January 2019//EN" "https://dtd.nlm.nih.gov/ncbi/pubmed/out/pubmed_190101.dtd">
//! <PubmedArticleSet>
//!     <PubmedArticle> ... </PubmedArticle>
//!     <PubmedArticle> ... </PubmedArticle>
//! </PubmedArticleSet>
//! ```
//! [`PubmedArticleSet::read`] parses such a text into a [`PubmedArticleSet`];
//! the document type declaration is accepted and not validated against.
//!
//! Every builder follows one pattern: read the record's own attributes, walk
//! the direct element children in document order, dispatch on the tag name,
//! and fill the matching field — overwriting for singular fields (the last
//! occurrence wins), appending for repeatable ones. A child tag a builder does
//! not recognise is skipped without error: the source schema carries many
//! fields this library does not model, and unknown content never aborts a
//! parse. A missing optional element or attribute leaves its field absent;
//! absence is never an error either.

use vstd::prelude::*;

use crate::errors::{Error, ParsingErrorType};
use crate::xml::{
    attr_of, children_of, first_tagged, first_tagged_from, is_tagged,
    last_tagged, last_tagged_text, namespaces_of, namespaces_view, parse_document, str_eq,
    tagged_children, text_of, XmlElementView, XmlNamespace, XmlNamespaceView, XmlNode, XmlNodeView,
};

verus! {

/// One cited work: its citation text and its identifiers.
#[derive(Debug, PartialEq)]
pub struct Reference {
    pub citation: Option<String>,
    pub article_id_list: ArticleIdList,
}

/// One identifier of an article in some registry (`IdType` says which).
#[derive(Debug, PartialEq)]
pub struct ArticleId {
    pub id_type: Option<String>,
    pub id: Option<String>,
}

/// The identifiers attached to an article or reference.
#[derive(Debug, PartialEq)]
pub struct ArticleIdList {
    pub article_ids: Vec<ArticleId>,
}

/// The works an article cites.
#[derive(Debug, PartialEq)]
pub struct ReferenceList {
    pub references: Vec<Reference>,
}

/// Post-publication metadata of an article.
#[derive(Debug, PartialEq)]
pub struct PubmedData {
    pub publication_status: Option<String>,
    pub article_id_list: Option<ArticleIdList>,
    pub reference_list: Option<ReferenceList>,
    pub history: Vec<PubMedPubDate>,
}

/// One entry of an article's publication history: a status and a date, kept
/// as separate strings because source formats vary.
#[derive(Debug, PartialEq)]
pub struct PubMedPubDate {
    pub pub_status: Option<String>,
    pub year: Option<String>,
    pub month: Option<String>,
    pub day: Option<String>,
}

/// The PubMed identifier of a citation.
#[derive(Debug, PartialEq)]
pub struct PMID {
    pub version: Option<String>,
    pub value: Option<String>,
}

/// A serial number of a journal.
#[derive(Debug, PartialEq)]
pub struct ISSN {
    pub issn_type: Option<String>,
    pub value: Option<String>,
}

/// A publication date, kept as separate strings because source formats vary
/// (numeric month, month name, season).
#[derive(Debug, PartialEq)]
pub struct PubDate {
    pub year: Option<String>,
    pub month: Option<String>,
    pub day: Option<String>,
}

/// The issue of the journal an article appeared in.
#[derive(Debug, PartialEq)]
pub struct JournalIssue {
    pub cited_medium: Option<String>,
    pub volume: Option<String>,
    pub issue: Option<String>,
    pub pub_date: Option<PubDate>,
}

/// The journal an article appeared in.
#[derive(Debug, PartialEq)]
pub struct Journal {
    pub issn: Option<ISSN>,
    pub journal_issue: Option<JournalIssue>,
    pub title: Option<String>,
    pub iso_abbr: Option<String>,
}

/// An electronic location identifier of an article.
#[derive(Debug, PartialEq)]
pub struct ELocationID {
    pub eid_type: Option<String>,
    pub valid_yn: Option<String>,
    pub value: Option<String>,
}

/// One section of an abstract. `value` is the mixed-content serialization of
/// the section: inline markup survives verbatim inside the text.
#[derive(Debug, PartialEq)]
pub struct AbstractText {
    pub label: Option<String>,
    pub nlm_category: Option<String>,
    pub value: Option<String>,
}

/// An article's abstract: its sections in document order.
#[derive(Debug, PartialEq)]
pub struct Abstract {
    pub text: Vec<AbstractText>,
}

/// The bibliographic body of a citation.
#[derive(Debug, PartialEq)]
pub struct Article {
    pub pub_model: Option<String>,
    pub title: Option<String>,
    pub journal: Option<Journal>,
    pub elocation_id: Option<ELocationID>,
    pub language: Option<String>,
    pub abstract_text: Option<Abstract>,
}

/// Journal metadata kept on the citation itself.
#[derive(Debug, PartialEq)]
pub struct MedlineJournalInfo {
    pub country: Option<String>,
    pub medline_ta: Option<String>,
    pub nlm_unique_id: Option<String>,
    pub issn_linking: Option<String>,
}

/// A curated citation of an article.
#[derive(Debug, PartialEq)]
pub struct MedlineCitation {
    pub status: Option<String>,
    pub owner: Option<String>,
    pub pmid: Option<PMID>,
    pub date_revised: Option<PubDate>,
    pub article: Option<Article>,
    pub medline_journal_info: Option<MedlineJournalInfo>,
}

/// One fetched record: the citation and its post-publication metadata.
#[derive(Debug, PartialEq)]
pub struct PubmedArticle {
    pub medline_citation: Option<MedlineCitation>,
    pub pubmed_data: Option<PubmedData>,
}

/// The root of the result: all fetched records in document order.
#[derive(Debug, PartialEq)]
pub struct PubmedArticleSet {
    pub articles: Vec<PubmedArticle>,
}

/// Mathematical image of a [`Reference`].
pub struct ReferenceView {
    pub citation: Option<Seq<char>>,
    pub article_id_list: ArticleIdListView,
}

/// Mathematical image of an [`ArticleId`].
pub struct ArticleIdView {
    pub id_type: Option<Seq<char>>,
    pub id: Option<Seq<char>>,
}

/// Mathematical image of an [`ArticleIdList`].
pub struct ArticleIdListView {
    pub article_ids: Seq<ArticleIdView>,
}

/// Mathematical image of a [`ReferenceList`].
pub struct ReferenceListView {
    pub references: Seq<ReferenceView>,
}

/// Mathematical image of a [`PubmedData`].
pub struct PubmedDataView {
    pub publication_status: Option<Seq<char>>,
    pub article_id_list: Option<ArticleIdListView>,
    pub reference_list: Option<ReferenceListView>,
    pub history: Seq<PubMedPubDateView>,
}

/// Mathematical image of a [`PubMedPubDate`].
pub struct PubMedPubDateView {
    pub pub_status: Option<Seq<char>>,
    pub year: Option<Seq<char>>,
    pub month: Option<Seq<char>>,
    pub day: Option<Seq<char>>,
}

/// Mathematical image of a [`PMID`].
pub struct PMIDView {
    pub version: Option<Seq<char>>,
    pub value: Option<Seq<char>>,
}

/// Mathematical image of an [`ISSN`].
pub struct ISSNView {
    pub issn_type: Option<Seq<char>>,
    pub value: Option<Seq<char>>,
}

/// Mathematical image of a [`PubDate`].
pub struct PubDateView {
    pub year: Option<Seq<char>>,
    pub month: Option<Seq<char>>,
    pub day: Option<Seq<char>>,
}

/// Mathematical image of a [`JournalIssue`].
pub struct JournalIssueView {
    pub cited_medium: Option<Seq<char>>,
    pub volume: Option<Seq<char>>,
    pub issue: Option<Seq<char>>,
    pub pub_date: Option<PubDateView>,
}

/// Mathematical image of a [`Journal`].
pub struct JournalView {
    pub issn: Option<ISSNView>,
    pub journal_issue: Option<JournalIssueView>,
    pub title: Option<Seq<char>>,
    pub iso_abbr: Option<Seq<char>>,
}

/// Mathematical image of an [`ELocationID`].
pub struct ELocationIDView {
    pub eid_type: Option<Seq<char>>,
    pub valid_yn: Option<Seq<char>>,
    pub value: Option<Seq<char>>,
}

/// Mathematical image of an [`AbstractText`].
pub struct AbstractTextView {
    pub label: Option<Seq<char>>,
    pub nlm_category: Option<Seq<char>>,
    pub value: Option<Seq<char>>,
}

/// Mathematical image of an [`Abstract`].
pub struct AbstractView {
    pub text: Seq<AbstractTextView>,
}

/// Mathematical image of an [`Article`].
pub struct ArticleView {
    pub pub_model: Option<Seq<char>>,
    pub title: Option<Seq<char>>,
    pub journal: Option<JournalView>,
    pub elocation_id: Option<ELocationIDView>,
    pub language: Option<Seq<char>>,
    pub abstract_text: Option<AbstractView>,
}

/// Mathematical image of a [`MedlineJournalInfo`].
pub struct MedlineJournalInfoView {
    pub country: Option<Seq<char>>,
    pub medline_ta: Option<Seq<char>>,
    pub nlm_unique_id: Option<Seq<char>>,
    pub issn_linking: Option<Seq<char>>,
}

/// Mathematical image of a [`MedlineCitation`].
pub struct MedlineCitationView {
    pub status: Option<Seq<char>>,
    pub owner: Option<Seq<char>>,
    pub pmid: Option<PMIDView>,
    pub date_revised: Option<PubDateView>,
    pub article: Option<ArticleView>,
    pub medline_journal_info: Option<MedlineJournalInfoView>,
}

/// Mathematical image of a [`PubmedArticle`].
pub struct PubmedArticleView {
    pub medline_citation: Option<MedlineCitationView>,
    pub pubmed_data: Option<PubmedDataView>,
}

/// Mathematical image of a [`PubmedArticleSet`].
pub struct PubmedArticleSetView {
    pub articles: Seq<PubmedArticleView>,
}

impl DeepView for Reference {
    type V = ReferenceView;

    open spec fn deep_view(&self) -> ReferenceView {
        ReferenceView {
            citation: self.citation.deep_view(),
            article_id_list: self.article_id_list.deep_view(),
        }
    }
}

impl DeepView for ArticleId {
    type V = ArticleIdView;

    open spec fn deep_view(&self) -> ArticleIdView {
        ArticleIdView { id_type: self.id_type.deep_view(), id: self.id.deep_view() }
    }
}

impl DeepView for ArticleIdList {
    type V = ArticleIdListView;

    open spec fn deep_view(&self) -> ArticleIdListView {
        ArticleIdListView { article_ids: self.article_ids.deep_view() }
    }
}

impl DeepView for ReferenceList {
    type V = ReferenceListView;

    open spec fn deep_view(&self) -> ReferenceListView {
        ReferenceListView { references: self.references.deep_view() }
    }
}

impl DeepView for PubmedData {
    type V = PubmedDataView;

    open spec fn deep_view(&self) -> PubmedDataView {
        PubmedDataView {
            publication_status: self.publication_status.deep_view(),
            article_id_list: self.article_id_list.deep_view(),
            reference_list: self.reference_list.deep_view(),
            history: self.history.deep_view(),
        }
    }
}

impl DeepView for PubMedPubDate {
    type V = PubMedPubDateView;

    open spec fn deep_view(&self) -> PubMedPubDateView {
        PubMedPubDateView {
            pub_status: self.pub_status.deep_view(),
            year: self.year.deep_view(),
            month: self.month.deep_view(),
            day: self.day.deep_view(),
        }
    }
}

impl DeepView for PMID {
    type V = PMIDView;

    open spec fn deep_view(&self) -> PMIDView {
        PMIDView { version: self.version.deep_view(), value: self.value.deep_view() }
    }
}

impl DeepView for ISSN {
    type V = ISSNView;

    open spec fn deep_view(&self) -> ISSNView {
        ISSNView { issn_type: self.issn_type.deep_view(), value: self.value.deep_view() }
    }
}

impl DeepView for PubDate {
    type V = PubDateView;

    open spec fn deep_view(&self) -> PubDateView {
        PubDateView {
            year: self.year.deep_view(),
            month: self.month.deep_view(),
            day: self.day.deep_view(),
        }
    }
}

impl DeepView for JournalIssue {
    type V = JournalIssueView;

    open spec fn deep_view(&self) -> JournalIssueView {
        JournalIssueView {
            cited_medium: self.cited_medium.deep_view(),
            volume: self.volume.deep_view(),
            issue: self.issue.deep_view(),
            pub_date: self.pub_date.deep_view(),
        }
    }
}

impl DeepView for Journal {
    type V = JournalView;

    open spec fn deep_view(&self) -> JournalView {
        JournalView {
            issn: self.issn.deep_view(),
            journal_issue: self.journal_issue.deep_view(),
            title: self.title.deep_view(),
            iso_abbr: self.iso_abbr.deep_view(),
        }
    }
}

impl DeepView for ELocationID {
    type V = ELocationIDView;

    open spec fn deep_view(&self) -> ELocationIDView {
        ELocationIDView {
            eid_type: self.eid_type.deep_view(),
            valid_yn: self.valid_yn.deep_view(),
            value: self.value.deep_view(),
        }
    }
}

impl DeepView for AbstractText {
    type V = AbstractTextView;

    open spec fn deep_view(&self) -> AbstractTextView {
        AbstractTextView {
            label: self.label.deep_view(),
            nlm_category: self.nlm_category.deep_view(),
            value: self.value.deep_view(),
        }
    }
}

impl DeepView for Abstract {
    type V = AbstractView;

    open spec fn deep_view(&self) -> AbstractView {
        AbstractView { text: self.text.deep_view() }
    }
}

impl DeepView for Article {
    type V = ArticleView;

    open spec fn deep_view(&self) -> ArticleView {
        ArticleView {
            pub_model: self.pub_model.deep_view(),
            title: self.title.deep_view(),
            journal: self.journal.deep_view(),
            elocation_id: self.elocation_id.deep_view(),
            language: self.language.deep_view(),
            abstract_text: self.abstract_text.deep_view(),
        }
    }
}

impl DeepView for MedlineJournalInfo {
    type V = MedlineJournalInfoView;

    open spec fn deep_view(&self) -> MedlineJournalInfoView {
        MedlineJournalInfoView {
            country: self.country.deep_view(),
            medline_ta: self.medline_ta.deep_view(),
            nlm_unique_id: self.nlm_unique_id.deep_view(),
            issn_linking: self.issn_linking.deep_view(),
        }
    }
}

impl DeepView for MedlineCitation {
    type V = MedlineCitationView;

    open spec fn deep_view(&self) -> MedlineCitationView {
        MedlineCitationView {
            status: self.status.deep_view(),
            owner: self.owner.deep_view(),
            pmid: self.pmid.deep_view(),
            date_revised: self.date_revised.deep_view(),
            article: self.article.deep_view(),
            medline_journal_info: self.medline_journal_info.deep_view(),
        }
    }
}

impl DeepView for PubmedArticle {
    type V = PubmedArticleView;

    open spec fn deep_view(&self) -> PubmedArticleView {
        PubmedArticleView {
            medline_citation: self.medline_citation.deep_view(),
            pubmed_data: self.pubmed_data.deep_view(),
        }
    }
}

impl DeepView for PubmedArticleSet {
    type V = PubmedArticleSetView;

    open spec fn deep_view(&self) -> PubmedArticleSetView {
        PubmedArticleSetView { articles: self.articles.deep_view() }
    }
}

/// The [`ArticleId`] a node denotes.
pub open spec fn article_id_of(n: XmlNodeView) -> ArticleIdView {
    ArticleIdView { id_type: attr_of(n, "IdType"@), id: text_of(n) }
}

/// The [`PMID`] a node denotes.
pub open spec fn pmid_of(n: XmlNodeView) -> PMIDView {
    PMIDView { version: attr_of(n, "Version"@), value: text_of(n) }
}

/// The [`ISSN`] a node denotes.
pub open spec fn issn_of(n: XmlNodeView) -> ISSNView {
    ISSNView { issn_type: attr_of(n, "IssnType"@), value: text_of(n) }
}

/// The [`ELocationID`] a node denotes.
pub open spec fn elocation_id_of(n: XmlNodeView) -> ELocationIDView {
    ELocationIDView {
        eid_type: attr_of(n, "EIdType"@),
        valid_yn: attr_of(n, "ValidYN"@),
        value: text_of(n),
    }
}

/// The [`PubDate`] a node denotes: the texts of its last `Year`, `Month` and
/// `Day` children.
pub open spec fn pub_date_of(n: XmlNodeView) -> PubDateView {
    PubDateView {
        year: last_tagged_text(children_of(n), "Year"@),
        month: last_tagged_text(children_of(n), "Month"@),
        day: last_tagged_text(children_of(n), "Day"@),
    }
}

/// The [`PubMedPubDate`] a node denotes: its `PubStatus` attribute and the
/// texts of its last `Year`, `Month` and `Day` children.
pub open spec fn pubmed_pub_date_of(n: XmlNodeView) -> PubMedPubDateView {
    PubMedPubDateView {
        pub_status: attr_of(n, "PubStatus"@),
        year: last_tagged_text(children_of(n), "Year"@),
        month: last_tagged_text(children_of(n), "Month"@),
        day: last_tagged_text(children_of(n), "Day"@),
    }
}

/// The [`MedlineJournalInfo`] a node denotes.
pub open spec fn medline_journal_info_of(n: XmlNodeView) -> MedlineJournalInfoView {
    MedlineJournalInfoView {
        country: last_tagged_text(children_of(n), "Country"@),
        medline_ta: last_tagged_text(children_of(n), "MedlineTA"@),
        nlm_unique_id: last_tagged_text(children_of(n), "NlmUniqueID"@),
        issn_linking: last_tagged_text(children_of(n), "ISSNLinking"@),
    }
}

/// The identifier records of all `ArticleId` children, in document order;
/// a child of any other tag is skipped.
pub open spec fn article_ids_of(children: Seq<XmlNodeView>) -> Seq<ArticleIdView> {
    tagged_children(children, "ArticleId"@).map_values(|c: XmlNodeView| article_id_of(c))
}

/// The [`ArticleIdList`] a node denotes: one identifier per `ArticleId`
/// child.
pub open spec fn article_id_list_of(n: XmlNodeView) -> ArticleIdListView {
    ArticleIdListView { article_ids: article_ids_of(children_of(n)) }
}

/// The [`Reference`] a node denotes: the text of its last `Citation` child
/// and the identifiers of its last `ArticleIdList` child (empty when absent).
pub open spec fn reference_of(n: XmlNodeView) -> ReferenceView {
    ReferenceView {
        citation: last_tagged_text(children_of(n), "Citation"@),
        article_id_list: match last_tagged(children_of(n), "ArticleIdList"@) {
            Some(c) => article_id_list_of(c),
            None => ArticleIdListView { article_ids: Seq::empty() },
        },
    }
}

/// The reference records of all `Reference` children, in document order; a
/// child of any other tag is skipped.
pub open spec fn references_of(children: Seq<XmlNodeView>) -> Seq<ReferenceView> {
    tagged_children(children, "Reference"@).map_values(|c: XmlNodeView| reference_of(c))
}

/// The [`ReferenceList`] a node denotes: one reference per `Reference` child.
pub open spec fn reference_list_of(n: XmlNodeView) -> ReferenceListView {
    ReferenceListView { references: references_of(children_of(n)) }
}

/// The publication-history entries of all `PubMedPubDate` children, in
/// document order; a child of any other tag is skipped.
pub open spec fn pub_dates_of(children: Seq<XmlNodeView>) -> Seq<PubMedPubDateView> {
    tagged_children(children, "PubMedPubDate"@).map_values(|c: XmlNodeView| pubmed_pub_date_of(c))
}

/// The publication history a child list denotes: every `History` child
/// contributes the entries of its `PubMedPubDate` children, appended in
/// document order.
pub open spec fn history_of(children: Seq<XmlNodeView>) -> Seq<PubMedPubDateView>
    decreases children.len(),
{
    if children.len() == 0 {
        Seq::empty()
    } else {
        let rest = history_of(children.drop_last());
        if is_tagged(children.last(), "History"@) {
            rest + pub_dates_of(children_of(children.last()))
        } else {
            rest
        }
    }
}

/// How [`history_of`] grows at the back.
pub broadcast proof fn lemma_history_push(s: Seq<XmlNodeView>, x: XmlNodeView)
    ensures
        #[trigger] history_of(s.push(x)) == if is_tagged(x, "History"@) {
            history_of(s) + pub_dates_of(children_of(x))
        } else {
            history_of(s)
        },
{
    assert(s.push(x).drop_last() =~= s);
}

/// The [`PubmedData`] a node denotes.
pub open spec fn pubmed_data_of(n: XmlNodeView) -> PubmedDataView {
    PubmedDataView {
        publication_status: last_tagged_text(children_of(n), "PublicationStatus"@),
        article_id_list: match last_tagged(children_of(n), "ArticleIdList"@) {
            Some(c) => Some(article_id_list_of(c)),
            None => None,
        },
        reference_list: match last_tagged(children_of(n), "ReferenceList"@) {
            Some(c) => Some(reference_list_of(c)),
            None => None,
        },
        history: history_of(children_of(n)),
    }
}

/// The [`JournalIssue`] a node denotes.
pub open spec fn journal_issue_of(n: XmlNodeView) -> JournalIssueView {
    JournalIssueView {
        cited_medium: attr_of(n, "CitedMedium"@),
        volume: last_tagged_text(children_of(n), "Volume"@),
        issue: last_tagged_text(children_of(n), "Issue"@),
        pub_date: match last_tagged(children_of(n), "PubDate"@) {
            Some(c) => Some(pub_date_of(c)),
            None => None,
        },
    }
}

/// The [`Journal`] a node denotes.
pub open spec fn journal_of(n: XmlNodeView) -> JournalView {
    JournalView {
        issn: match last_tagged(children_of(n), "ISSN"@) {
            Some(c) => Some(issn_of(c)),
            None => None,
        },
        journal_issue: match last_tagged(children_of(n), "JournalIssue"@) {
            Some(c) => Some(journal_issue_of(c)),
            None => None,
        },
        title: last_tagged_text(children_of(n), "Title"@),
        iso_abbr: last_tagged_text(children_of(n), "ISOAbbreviation"@),
    }
}

/// The namespace bindings that carry a prefix, as (prefix, uri) pairs in
/// order of declaration. Bindings of the default namespace carry no prefix
/// and are passed over: a plain tag is re-emitted unqualified.
pub open spec fn prefixed_namespaces(ns: Seq<XmlNamespaceView>) -> Seq<(Seq<char>, Seq<char>)>
    decreases ns.len(),
{
    if ns.len() == 0 {
        Seq::empty()
    } else {
        let rest = prefixed_namespaces(ns.drop_last());
        match ns.last().prefix {
            Some(p) => rest.push((p, ns.last().uri)),
            None => rest,
        }
    }
}

/// The bindings an element declares itself: those of its in-scope list that
/// its parent's in-scope list does not also carry.
pub open spec fn own_namespaces(
    ns: Seq<XmlNamespaceView>,
    parent: Seq<XmlNamespaceView>,
) -> Seq<XmlNamespaceView>
    decreases ns.len(),
{
    if ns.len() == 0 {
        Seq::empty()
    } else {
        let rest = own_namespaces(ns.drop_last(), parent);
        if parent.contains(ns.last()) {
            rest
        } else {
            rest.push(ns.last())
        }
    }
}

/// One qualified tag occurrence with its namespace declaration:
/// `prefix:tag xmlns:prefix="uri"`.
pub open spec fn ns_open_entry(tag: Seq<char>, p: Seq<char>, uri: Seq<char>) -> Seq<char> {
    p + ":"@ + tag + " xmlns:"@ + p + "="@ + "\""@ + uri + "\""@
}

/// The qualified tag occurrences of all prefixed bindings, concatenated.
pub open spec fn ns_open_entries(tag: Seq<char>, entries: Seq<(Seq<char>, Seq<char>)>) -> Seq<char>
    decreases entries.len(),
{
    if entries.len() == 0 {
        Seq::empty()
    } else {
        ns_open_entries(tag, entries.drop_last()) + ns_open_entry(
            tag,
            entries.last().0,
            entries.last().1,
        )
    }
}

/// The `prefix:` runs that qualify a closing tag.
pub open spec fn ns_close_prefixes(entries: Seq<(Seq<char>, Seq<char>)>) -> Seq<char>
    decreases entries.len(),
{
    if entries.len() == 0 {
        Seq::empty()
    } else {
        ns_close_prefixes(entries.drop_last()) + entries.last().0 + ":"@
    }
}

/// The opening tag emitted for an element whose parent has the in-scope
/// bindings `parent`: plain when the element declares no prefixed namespace
/// binding of its own, qualified with its declarations otherwise.
pub open spec fn open_tag_of(e: XmlElementView, parent: Seq<XmlNamespaceView>) -> Seq<char> {
    let pre = prefixed_namespaces(own_namespaces(e.namespaces, parent));
    "<"@ + (if pre.len() == 0 {
        e.tag
    } else {
        ns_open_entries(e.tag, pre)
    }) + ">"@
}

/// The closing tag emitted for an element whose parent has the in-scope
/// bindings `parent`.
pub open spec fn close_tag_of(e: XmlElementView, parent: Seq<XmlNamespaceView>) -> Seq<char> {
    "</"@ + ns_close_prefixes(prefixed_namespaces(own_namespaces(e.namespaces, parent))) + e.tag
        + ">"@
}

/// The rendering of one node one level below a direct child, `parent` being
/// the in-scope bindings of the node above it: elements are re-emitted as a
/// tag pair around their own direct text, text and comment data is appended
/// verbatim, anything else adds nothing.
pub open spec fn render_inner(n: XmlNodeView, parent: Seq<XmlNamespaceView>) -> Seq<char> {
    match n {
        XmlNodeView::Element(e) => open_tag_of(e, parent) + (match text_of(n) {
            Some(t) => t,
            None => Seq::empty(),
        }) + close_tag_of(e, parent),
        XmlNodeView::Text(s) => s,
        XmlNodeView::Comment(s) => s,
        XmlNodeView::Unsupported => Seq::empty(),
    }
}

/// The renderings of all nodes one level below a direct child, concatenated.
pub open spec fn render_inner_all(
    children: Seq<XmlNodeView>,
    parent: Seq<XmlNamespaceView>,
) -> Seq<char>
    decreases children.len(),
{
    if children.len() == 0 {
        Seq::empty()
    } else {
        render_inner_all(children.drop_last(), parent) + render_inner(children.last(), parent)
    }
}

/// The rendering of one direct child of a mixed-content element, `parent`
/// being the in-scope bindings of that element: text is appended verbatim, an
/// element is re-emitted as a tag pair around the renderings of its own
/// children (one level deep), everything else adds nothing.
pub open spec fn render_child(n: XmlNodeView, parent: Seq<XmlNamespaceView>) -> Seq<char> {
    match n {
        XmlNodeView::Element(e) => open_tag_of(e, parent) + (if e.children.len() > 0 {
            render_inner_all(e.children, e.namespaces)
        } else {
            Seq::empty()
        }) + close_tag_of(e, parent),
        XmlNodeView::Text(s) => s,
        XmlNodeView::Comment(_) => Seq::empty(),
        XmlNodeView::Unsupported => Seq::empty(),
    }
}

/// The mixed-content serialization of the child list of an element with the
/// in-scope bindings `parent`: the faithful textual encoding of content that
/// interleaves plain text with inline markup.
pub open spec fn mixed_content_of(
    children: Seq<XmlNodeView>,
    parent: Seq<XmlNamespaceView>,
) -> Seq<char>
    decreases children.len(),
{
    if children.len() == 0 {
        Seq::empty()
    } else {
        mixed_content_of(children.drop_last(), parent) + render_child(children.last(), parent)
    }
}

/// How [`mixed_content_of`] grows at the back.
pub broadcast proof fn lemma_mixed_content_push(
    s: Seq<XmlNodeView>,
    x: XmlNodeView,
    parent: Seq<XmlNamespaceView>,
)
    ensures
        #[trigger] mixed_content_of(s.push(x), parent) == mixed_content_of(s, parent)
            + render_child(x, parent),
{
    assert(s.push(x).drop_last() =~= s);
}

/// The [`AbstractText`] a node denotes: its `Label` and `NlmCategory`
/// attributes and the mixed-content serialization of its children — absent
/// when the node has no children at all.
pub open spec fn abstract_text_of(n: XmlNodeView) -> AbstractTextView {
    AbstractTextView {
        label: attr_of(n, "Label"@),
        nlm_category: attr_of(n, "NlmCategory"@),
        value: if children_of(n).len() > 0 {
            Some(mixed_content_of(children_of(n), namespaces_of(n)))
        } else {
            None
        },
    }
}

/// The section records of all `AbstractText` children, in document order.
pub open spec fn abstract_texts_of(children: Seq<XmlNodeView>) -> Seq<AbstractTextView> {
    tagged_children(children, "AbstractText"@).map_values(|c: XmlNodeView| abstract_text_of(c))
}

/// The [`Abstract`] a node denotes: one section per `AbstractText` child.
pub open spec fn abstract_of(n: XmlNodeView) -> AbstractView {
    AbstractView { text: abstract_texts_of(children_of(n)) }
}

/// The [`Article`] a node denotes.
pub open spec fn article_of(n: XmlNodeView) -> ArticleView {
    ArticleView {
        pub_model: attr_of(n, "PubModel"@),
        title: last_tagged_text(children_of(n), "ArticleTitle"@),
        journal: match last_tagged(children_of(n), "Journal"@) {
            Some(c) => Some(journal_of(c)),
            None => None,
        },
        elocation_id: match last_tagged(children_of(n), "ELocationID"@) {
            Some(c) => Some(elocation_id_of(c)),
            None => None,
        },
        language: last_tagged_text(children_of(n), "Language"@),
        abstract_text: match last_tagged(children_of(n), "Abstract"@) {
            Some(c) => Some(abstract_of(c)),
            None => None,
        },
    }
}

/// The [`MedlineCitation`] a node denotes.
pub open spec fn medline_citation_of(n: XmlNodeView) -> MedlineCitationView {
    MedlineCitationView {
        status: attr_of(n, "Status"@),
        owner: attr_of(n, "Owner"@),
        pmid: match last_tagged(children_of(n), "PMID"@) {
            Some(c) => Some(pmid_of(c)),
            None => None,
        },
        date_revised: match last_tagged(children_of(n), "DateRevised"@) {
            Some(c) => Some(pub_date_of(c)),
            None => None,
        },
        article: match last_tagged(children_of(n), "Article"@) {
            Some(c) => Some(article_of(c)),
            None => None,
        },
        medline_journal_info: match last_tagged(children_of(n), "MedlineJournalInfo"@) {
            Some(c) => Some(medline_journal_info_of(c)),
            None => None,
        },
    }
}

/// The [`PubmedArticle`] a node denotes.
pub open spec fn pubmed_article_of(n: XmlNodeView) -> PubmedArticleView {
    PubmedArticleView {
        medline_citation: match last_tagged(children_of(n), "MedlineCitation"@) {
            Some(c) => Some(medline_citation_of(c)),
            None => None,
        },
        pubmed_data: match last_tagged(children_of(n), "PubmedData"@) {
            Some(c) => Some(pubmed_data_of(c)),
            None => None,
        },
    }
}

/// The article records of all `PubmedArticle` children, in document order.
pub open spec fn articles_of(children: Seq<XmlNodeView>) -> Seq<PubmedArticleView> {
    tagged_children(children, "PubmedArticle"@).map_values(|c: XmlNodeView| pubmed_article_of(c))
}

/// The [`PubmedArticleSet`] a node denotes: one record per `PubmedArticle`
/// child.
pub open spec fn pubmed_article_set_of(n: XmlNodeView) -> PubmedArticleSetView {
    PubmedArticleSetView { articles: articles_of(children_of(n)) }
}

impl ArticleId {
    /// Builds the record from its node: the `IdType` attribute and the node's
    /// own text.
    pub fn from_node(node: &XmlNode) -> (r: Self)
        ensures
            r.deep_view() == article_id_of(node@),
    {
        ArticleId { id_type: node.attribute("IdType"), id: node.text() }
    }
}

impl PMID {
    /// Builds the record from its node: the `Version` attribute and the
    /// node's own text.
    pub fn from_node(node: &XmlNode) -> (r: Self)
        ensures
            r.deep_view() == pmid_of(node@),
    {
        PMID { version: node.attribute("Version"), value: node.text() }
    }
}

impl ISSN {
    /// Builds the record from its node: the `IssnType` attribute and the
    /// node's own text.
    pub fn from_node(node: &XmlNode) -> (r: Self)
        ensures
            r.deep_view() == issn_of(node@),
    {
        ISSN { issn_type: node.attribute("IssnType"), value: node.text() }
    }
}

impl ELocationID {
    /// Builds the record from its node: the `EIdType` and `ValidYN`
    /// attributes and the node's own text.
    pub fn from_node(node: &XmlNode) -> (r: Self)
        ensures
            r.deep_view() == elocation_id_of(node@),
    {
        ELocationID {
            eid_type: node.attribute("EIdType"),
            valid_yn: node.attribute("ValidYN"),
            value: node.text(),
        }
    }
}

impl PubDate {
    /// Builds the record from its node, dispatching on the child tags `Year`,
    /// `Month` and `Day`; the last occurrence of a tag wins.
    pub fn from_node(node: &XmlNode) -> (r: Self)
        ensures
            r.deep_view() == pub_date_of(node@),
    {
        let ghost kids = children_of(node@);
        let mut year: Option<String> = None;
        let mut month: Option<String> = None;
        let mut day: Option<String> = None;
        let n = node.num_children();
        let mut i: usize = 0;
        while i < n
            invariant
                i <= n,
                n == kids.len(),
                kids == children_of(node@),
                year.deep_view() == last_tagged_text(kids.take(i as int), "Year"@),
                month.deep_view() == last_tagged_text(kids.take(i as int), "Month"@),
                day.deep_view() == last_tagged_text(kids.take(i as int), "Day"@),
            decreases n - i,
        {
            let c = node.child(i);
            if c.has_tag("Year") {
                year = c.text();
            }
            if c.has_tag("Month") {
                month = c.text();
            }
            if c.has_tag("Day") {
                day = c.text();
            }
            proof {
                kids.lemma_take_succ_push(i as int);
                crate::xml::lemma_last_tagged_push(kids.take(i as int), kids[i as int], "Year"@);
                crate::xml::lemma_last_tagged_push(kids.take(i as int), kids[i as int], "Month"@);
                crate::xml::lemma_last_tagged_push(kids.take(i as int), kids[i as int], "Day"@);
            }
            i = i + 1;
        }
        proof {
            kids.lemma_take_len();
        }
        PubDate { year, month, day }
    }
}

impl ArticleIdList {
    /// Builds the record from its node: one identifier per `ArticleId` child,
    /// in document order; a child of any other tag is skipped.
    pub fn from_node(node: &XmlNode) -> (r: Self)
        ensures
            r.deep_view() == article_id_list_of(node@),
    {
        let ghost kids = children_of(node@);
        let mut article_ids: Vec<ArticleId> = Vec::new();
        let n = node.num_children();
        let mut i: usize = 0;
        while i < n
            invariant
                i <= n,
                n == kids.len(),
                kids == children_of(node@),
                article_ids.deep_view() == article_ids_of(kids.take(i as int)),
            decreases n - i,
        {
            let c = node.child(i);
            let ghost prev = article_ids.deep_view();
            if c.has_tag("ArticleId") {
                article_ids.push(ArticleId::from_node(c));
                proof {
                    assert(article_ids.deep_view() =~= prev.push(article_id_of(kids[i as int])));
                }
            }
            proof {
                kids.lemma_take_succ_push(i as int);
                crate::xml::lemma_tagged_children_push(
                    kids.take(i as int),
                    kids[i as int],
                    "ArticleId"@,
                );
                tagged_children(kids.take(i as int), "ArticleId"@).lemma_push_map_commute(
                    |c: XmlNodeView| article_id_of(c),
                    kids[i as int],
                );
            }
            i = i + 1;
        }
        proof {
            kids.lemma_take_len();
        }
        ArticleIdList { article_ids }
    }
}

/// How [`prefixed_namespaces`] grows at the back.
proof fn lemma_prefixed_namespaces_push(s: Seq<XmlNamespaceView>, x: XmlNamespaceView)
    ensures
        prefixed_namespaces(s.push(x)) == (match x.prefix {
            Some(p) => prefixed_namespaces(s).push((p, x.uri)),
            None => prefixed_namespaces(s),
        }),
{
    assert(s.push(x).drop_last() =~= s);
}

/// How [`ns_open_entries`] grows at the back.
proof fn lemma_ns_open_entries_push(
    tag: Seq<char>,
    s: Seq<(Seq<char>, Seq<char>)>,
    x: (Seq<char>, Seq<char>),
)
    ensures
        ns_open_entries(tag, s.push(x)) == ns_open_entries(tag, s) + ns_open_entry(tag, x.0, x.1),
{
    assert(s.push(x).drop_last() =~= s);
}

/// How [`ns_close_prefixes`] grows at the back.
proof fn lemma_ns_close_prefixes_push(s: Seq<(Seq<char>, Seq<char>)>, x: (Seq<char>, Seq<char>))
    ensures
        ns_close_prefixes(s.push(x)) == ns_close_prefixes(s) + x.0 + ":"@,
{
    assert(s.push(x).drop_last() =~= s);
}

/// How [`own_namespaces`] grows at the back.
proof fn lemma_own_namespaces_push(
    s: Seq<XmlNamespaceView>,
    x: XmlNamespaceView,
    parent: Seq<XmlNamespaceView>,
)
    ensures
        own_namespaces(s.push(x), parent) == (if parent.contains(x) {
            own_namespaces(s, parent)
        } else {
            own_namespaces(s, parent).push(x)
        }),
{
    assert(s.push(x).drop_last() =~= s);
}

/// How [`render_inner_all`] grows at the back.
proof fn lemma_render_inner_all_push(
    s: Seq<XmlNodeView>,
    x: XmlNodeView,
    parent: Seq<XmlNamespaceView>,
)
    ensures
        render_inner_all(s.push(x), parent) == render_inner_all(s, parent) + render_inner(
            x,
            parent,
        ),
{
    assert(s.push(x).drop_last() =~= s);
}

/// Whether the list carries exactly this binding: same prefix, same URI.
fn contains_namespace(list: &Vec<XmlNamespace>, ns: &XmlNamespace) -> (r: bool)
    ensures
        r == namespaces_view(list@).contains(crate::xml::namespace_view(*ns)),
{
    let ghost lv = namespaces_view(list@);
    let ghost target = crate::xml::namespace_view(*ns);
    let mut i: usize = 0;
    while i < list.len()
        invariant
            i <= list.len(),
            lv.len() == list@.len(),
            lv == namespaces_view(list@),
            target == crate::xml::namespace_view(*ns),
            forall|j: int| 0 <= j < i ==> lv[j] != target,
        decreases list.len() - i,
    {
        proof {
            assert(lv[i as int] == crate::xml::namespace_view(list@[i as int]));
        }
        let prefix_eq = match (&list[i].prefix, &ns.prefix) {
            (Some(a), Some(b)) => str_eq(a.as_str(), b.as_str()),
            (None, None) => true,
            _ => false,
        };
        if prefix_eq && str_eq(list[i].uri.as_str(), ns.uri.as_str()) {
            proof {
                assert(lv[i as int] == target);
            }
            return true;
        }
        proof {
            assert(lv[i as int] != target);
        }
        i = i + 1;
    }
    proof {
        assert(!lv.contains(target));
    }
    false
}

/// The namespace bindings an element declares itself — those not also in
/// scope of its parent — that carry a prefix, collected as owned
/// (prefix, uri) pairs in order of declaration.
fn prefixed_entries(nss: &Vec<XmlNamespace>, parent: &Vec<XmlNamespace>) -> (r: Vec<
    (String, String),
>)
    ensures
        r.deep_view() == prefixed_namespaces(
            own_namespaces(namespaces_view(nss@), namespaces_view(parent@)),
        ),
{
    let ghost nsv = namespaces_view(nss@);
    let ghost pv = namespaces_view(parent@);
    let mut r: Vec<(String, String)> = Vec::new();
    let mut i: usize = 0;
    while i < nss.len()
        invariant
            i <= nss.len(),
            nsv.len() == nss@.len(),
            nsv == namespaces_view(nss@),
            pv == namespaces_view(parent@),
            r.deep_view() == prefixed_namespaces(own_namespaces(nsv.take(i as int), pv)),
        decreases nss.len() - i,
    {
        let ghost prev = r.deep_view();
        proof {
            assert(nsv[i as int] == crate::xml::namespace_view(nss@[i as int]));
        }
        if !contains_namespace(parent, &nss[i]) {
            match &nss[i].prefix {
                Some(p) => {
                    r.push((p.clone(), nss[i].uri.clone()));
                    proof {
                        assert(r.deep_view() =~= prev.push(
                            (nsv[i as int].prefix->Some_0, nsv[i as int].uri),
                        ));
                    }
                },
                None => {},
            }
        }
        proof {
            nsv.lemma_take_succ_push(i as int);
            lemma_own_namespaces_push(nsv.take(i as int), nsv[i as int], pv);
            if !pv.contains(nsv[i as int]) {
                lemma_prefixed_namespaces_push(
                    own_namespaces(nsv.take(i as int), pv),
                    nsv[i as int],
                );
            }
        }
        i = i + 1;
    }
    proof {
        nsv.lemma_take_len();
    }
    r
}

/// Appends the opening tag of an element whose parent carries the in-scope
/// bindings `parent`: plain when the element declares no prefixed namespace
/// of its own, qualified otherwise.
fn append_open_tag(e: &crate::xml::XmlElement, parent: &Vec<XmlNamespace>, buf: &mut String)
    ensures
        final(buf)@ == old(buf)@ + open_tag_of(e@, namespaces_view(parent@)),
{
    let ghost start = buf@;
    buf.append("<");
    let pre = prefixed_entries(&e.namespaces, parent);
    let ghost prev = prefixed_namespaces(own_namespaces(e@.namespaces, namespaces_view(parent@)));
    if pre.len() == 0 {
        buf.append(e.tag.as_str());
    } else {
        let mut i: usize = 0;
        while i < pre.len()
            invariant
                i <= pre.len(),
                pre.deep_view() == prev,
                prev.len() == pre@.len(),
                buf@ == start + "<"@ + ns_open_entries(e@.tag, prev.take(i as int)),
            decreases pre.len() - i,
        {
            buf.append(pre[i].0.as_str());
            buf.append(":");
            buf.append(e.tag.as_str());
            buf.append(" xmlns:");
            buf.append(pre[i].0.as_str());
            buf.append("=");
            buf.append("\"");
            buf.append(pre[i].1.as_str());
            buf.append("\"");
            proof {
                prev.lemma_take_succ_push(i as int);
                lemma_ns_open_entries_push(e@.tag, prev.take(i as int), prev[i as int]);
                assert(prev[i as int] == (pre@[i as int].0@, pre@[i as int].1@));
                assert(buf@ =~= start + "<"@ + ns_open_entries(e@.tag, prev.take(i as int + 1)));
            }
            i = i + 1;
        }
        proof {
            prev.lemma_take_len();
        }
    }
    buf.append(">");
    proof {
        assert(buf@ =~= start + open_tag_of(e@, namespaces_view(parent@)));
    }
}

/// Appends the closing tag of an element whose parent carries the in-scope
/// bindings `parent`.
fn append_close_tag(e: &crate::xml::XmlElement, parent: &Vec<XmlNamespace>, buf: &mut String)
    ensures
        final(buf)@ == old(buf)@ + close_tag_of(e@, namespaces_view(parent@)),
{
    let ghost start = buf@;
    buf.append("</");
    let pre = prefixed_entries(&e.namespaces, parent);
    let ghost prev = prefixed_namespaces(own_namespaces(e@.namespaces, namespaces_view(parent@)));
    let mut i: usize = 0;
    while i < pre.len()
        invariant
            i <= pre.len(),
            pre.deep_view() == prev,
            prev.len() == pre@.len(),
            buf@ == start + "</"@ + ns_close_prefixes(prev.take(i as int)),
        decreases pre.len() - i,
    {
        buf.append(pre[i].0.as_str());
        buf.append(":");
        proof {
            prev.lemma_take_succ_push(i as int);
            lemma_ns_close_prefixes_push(prev.take(i as int), prev[i as int]);
            assert(prev[i as int] == (pre@[i as int].0@, pre@[i as int].1@));
            assert(buf@ =~= start + "</"@ + ns_close_prefixes(prev.take(i as int + 1)));
        }
        i = i + 1;
    }
    proof {
        prev.lemma_take_len();
    }
    buf.append(e.tag.as_str());
    buf.append(">");
    proof {
        assert(buf@ =~= start + close_tag_of(e@, namespaces_view(parent@)));
    }
}

/// Appends the rendering of one node one level below a direct child, with
/// `parent` the in-scope bindings of the node above it: a tag pair around the
/// node's own direct text for elements, the data itself for text and comment
/// nodes.
fn render_inner_into(g: &XmlNode, parent: &Vec<XmlNamespace>, buf: &mut String)
    ensures
        final(buf)@ == old(buf)@ + render_inner(g@, namespaces_view(parent@)),
{
    let ghost start = buf@;
    match g {
        XmlNode::Element(e) => {
            append_open_tag(e, parent, buf);
            match g.text() {
                Some(t) => buf.append(t.as_str()),
                None => {},
            }
            append_close_tag(e, parent, buf);
            proof {
                assert(buf@ =~= start + render_inner(g@, namespaces_view(parent@)));
            }
        },
        XmlNode::Text(s) => buf.append(s.as_str()),
        XmlNode::Comment(s) => buf.append(s.as_str()),
        XmlNode::Unsupported => {},
    }
}

/// Appends the rendering of one direct child of a mixed-content element,
/// with `parent` that element's in-scope bindings: text verbatim, an element
/// as a tag pair around the renderings of its own children, one level deep.
fn render_child_into(c: &XmlNode, parent: &Vec<XmlNamespace>, buf: &mut String)
    ensures
        final(buf)@ == old(buf)@ + render_child(c@, namespaces_view(parent@)),
{
    let ghost start = buf@;
    let ghost pns = namespaces_view(parent@);
    match c {
        XmlNode::Element(e) => {
            append_open_tag(e, parent, buf);
            let ghost gkids = e@.children;
            proof {
                crate::xml::lemma_nodes_view_len(e.children@);
            }
            let m = e.children.len();
            let mut j: usize = 0;
            while j < m
                invariant
                    j <= m,
                    m == gkids.len(),
                    m == e.children@.len(),
                    gkids == e@.children,
                    pns == namespaces_view(parent@),
                    buf@ == start + open_tag_of(e@, pns) + (if gkids.len() > 0 {
                        render_inner_all(gkids.take(j as int), e@.namespaces)
                    } else {
                        Seq::<char>::empty()
                    }),
                decreases m - j,
            {
                proof {
                    crate::xml::lemma_nodes_view_len(e.children@);
                    crate::xml::lemma_nodes_view_index(e.children@, j as int);
                }
                render_inner_into(&e.children[j], &e.namespaces, buf);
                proof {
                    gkids.lemma_take_succ_push(j as int);
                    lemma_render_inner_all_push(gkids.take(j as int), gkids[j as int], e@.namespaces);
                    assert(buf@ =~= start + open_tag_of(e@, pns) + render_inner_all(
                        gkids.take(j as int + 1),
                        e@.namespaces,
                    ));
                }
                j = j + 1;
            }
            proof {
                gkids.lemma_take_len();
            }
            append_close_tag(e, parent, buf);
            proof {
                assert(buf@ =~= start + render_child(c@, pns));
            }
        },
        XmlNode::Text(s) => buf.append(s.as_str()),
        XmlNode::Comment(_) => {},
        XmlNode::Unsupported => {},
    }
}

impl AbstractText {
    /// Builds the record from its node: the `Label` and `NlmCategory`
    /// attributes, and the mixed-content serialization of the node's children
    /// — absent when the node has none.
    pub fn from_node(node: &XmlNode) -> (r: Self)
        ensures
            r.deep_view() == abstract_text_of(node@),
    {
        let label = node.attribute("Label");
        let nlm_category = node.attribute("NlmCategory");
        let mut value: Option<String> = None;
        match node {
            XmlNode::Element(el) => {
                let ghost kids = children_of(node@);
                let ghost pns = namespaces_of(node@);
                let n = node.num_children();
                if n > 0 {
                    let mut buf = String::new();
                    proof {
                        assert(buf@ =~= mixed_content_of(kids.take(0), pns));
                    }
                    let mut i: usize = 0;
                    while i < n
                        invariant
                            i <= n,
                            n == kids.len(),
                            kids == children_of(node@),
                            pns == namespaces_of(node@),
                            pns == namespaces_view(el.namespaces@),
                            buf@ == mixed_content_of(kids.take(i as int), pns),
                        decreases n - i,
                    {
                        let c = node.child(i);
                        render_child_into(c, &el.namespaces, &mut buf);
                        proof {
                            kids.lemma_take_succ_push(i as int);
                            lemma_mixed_content_push(kids.take(i as int), kids[i as int], pns);
                        }
                        i = i + 1;
                    }
                    proof {
                        kids.lemma_take_len();
                    }
                    value = Some(buf);
                }
            },
            _ => {},
        }
        AbstractText { label, nlm_category, value }
    }
}

impl PubMedPubDate {
    /// Builds the record from its node: the `PubStatus` attribute, then the
    /// child tags `Year`, `Month` and `Day`; the last occurrence wins.
    pub fn from_node(node: &XmlNode) -> (r: Self)
        ensures
            r.deep_view() == pubmed_pub_date_of(node@),
    {
        let pub_status = node.attribute("PubStatus");
        let ghost kids = children_of(node@);
        let mut year: Option<String> = None;
        let mut month: Option<String> = None;
        let mut day: Option<String> = None;
        let n = node.num_children();
        let mut i: usize = 0;
        while i < n
            invariant
                i <= n,
                n == kids.len(),
                kids == children_of(node@),
                year.deep_view() == last_tagged_text(kids.take(i as int), "Year"@),
                month.deep_view() == last_tagged_text(kids.take(i as int), "Month"@),
                day.deep_view() == last_tagged_text(kids.take(i as int), "Day"@),
            decreases n - i,
        {
            let c = node.child(i);
            if c.has_tag("Year") {
                year = c.text();
            }
            if c.has_tag("Month") {
                month = c.text();
            }
            if c.has_tag("Day") {
                day = c.text();
            }
            proof {
                kids.lemma_take_succ_push(i as int);
                crate::xml::lemma_last_tagged_push(kids.take(i as int), kids[i as int], "Year"@);
                crate::xml::lemma_last_tagged_push(kids.take(i as int), kids[i as int], "Month"@);
                crate::xml::lemma_last_tagged_push(kids.take(i as int), kids[i as int], "Day"@);
            }
            i = i + 1;
        }
        proof {
            kids.lemma_take_len();
        }
        PubMedPubDate { pub_status, year, month, day }
    }
}

impl MedlineJournalInfo {
    /// Builds the record from its node, dispatching on the child tags
    /// `Country`, `MedlineTA`, `NlmUniqueID` and `ISSNLinking`.
    pub fn from_node(node: &XmlNode) -> (r: Self)
        ensures
            r.deep_view() == medline_journal_info_of(node@),
    {
        let ghost kids = children_of(node@);
        let mut country: Option<String> = None;
        let mut medline_ta: Option<String> = None;
        let mut nlm_unique_id: Option<String> = None;
        let mut issn_linking: Option<String> = None;
        let n = node.num_children();
        let mut i: usize = 0;
        while i < n
            invariant
                i <= n,
                n == kids.len(),
                kids == children_of(node@),
                country.deep_view() == last_tagged_text(kids.take(i as int), "Country"@),
                medline_ta.deep_view() == last_tagged_text(kids.take(i as int), "MedlineTA"@),
                nlm_unique_id.deep_view() == last_tagged_text(kids.take(i as int), "NlmUniqueID"@),
                issn_linking.deep_view() == last_tagged_text(kids.take(i as int), "ISSNLinking"@),
            decreases n - i,
        {
            let c = node.child(i);
            if c.has_tag("Country") {
                country = c.text();
            }
            if c.has_tag("MedlineTA") {
                medline_ta = c.text();
            }
            if c.has_tag("NlmUniqueID") {
                nlm_unique_id = c.text();
            }
            if c.has_tag("ISSNLinking") {
                issn_linking = c.text();
            }
            proof {
                kids.lemma_take_succ_push(i as int);
                crate::xml::lemma_last_tagged_push(kids.take(i as int), kids[i as int], "Country"@);
                crate::xml::lemma_last_tagged_push(
                    kids.take(i as int),
                    kids[i as int],
                    "MedlineTA"@,
                );
                crate::xml::lemma_last_tagged_push(
                    kids.take(i as int),
                    kids[i as int],
                    "NlmUniqueID"@,
                );
                crate::xml::lemma_last_tagged_push(
                    kids.take(i as int),
                    kids[i as int],
                    "ISSNLinking"@,
                );
            }
            i = i + 1;
        }
        proof {
            kids.lemma_take_len();
        }
        MedlineJournalInfo { country, medline_ta, nlm_unique_id, issn_linking }
    }
}

impl Reference {
    /// Builds the record from its node: the text of the last `Citation` child
    /// and the identifiers of the last `ArticleIdList` child; without such a
    /// child the identifier list is empty.
    pub fn from_node(node: &XmlNode) -> (r: Self)
        ensures
            r.deep_view() == reference_of(node@),
    {
        let ghost kids = children_of(node@);
        let mut citation: Option<String> = None;
        let mut article_id_list = ArticleIdList { article_ids: Vec::new() };
        proof {
            assert(article_id_list.deep_view().article_ids =~= Seq::<ArticleIdView>::empty());
        }
        let n = node.num_children();
        let mut i: usize = 0;
        while i < n
            invariant
                i <= n,
                n == kids.len(),
                kids == children_of(node@),
                citation.deep_view() == last_tagged_text(kids.take(i as int), "Citation"@),
                article_id_list.deep_view() == (match last_tagged(
                    kids.take(i as int),
                    "ArticleIdList"@,
                ) {
                    Some(c) => article_id_list_of(c),
                    None => ArticleIdListView { article_ids: Seq::empty() },
                }),
            decreases n - i,
        {
            let c = node.child(i);
            if c.has_tag("Citation") {
                citation = c.text();
            }
            if c.has_tag("ArticleIdList") {
                article_id_list = ArticleIdList::from_node(c);
            }
            proof {
                kids.lemma_take_succ_push(i as int);
                crate::xml::lemma_last_tagged_push(kids.take(i as int), kids[i as int], "Citation"@);
                crate::xml::lemma_last_tagged_push(
                    kids.take(i as int),
                    kids[i as int],
                    "ArticleIdList"@,
                );
            }
            i = i + 1;
        }
        proof {
            kids.lemma_take_len();
        }
        Reference { citation, article_id_list }
    }
}

impl ReferenceList {
    /// Builds the record from its node: one reference per `Reference` child,
    /// in document order; a child of any other tag is skipped.
    pub fn from_node(node: &XmlNode) -> (r: Self)
        ensures
            r.deep_view() == reference_list_of(node@),
    {
        let ghost kids = children_of(node@);
        let mut references: Vec<Reference> = Vec::new();
        let n = node.num_children();
        let mut i: usize = 0;
        while i < n
            invariant
                i <= n,
                n == kids.len(),
                kids == children_of(node@),
                references.deep_view() == references_of(kids.take(i as int)),
            decreases n - i,
        {
            let c = node.child(i);
            let ghost prev = references.deep_view();
            if c.has_tag("Reference") {
                references.push(Reference::from_node(c));
                proof {
                    assert(references.deep_view() =~= prev.push(reference_of(kids[i as int])));
                }
            }
            proof {
                kids.lemma_take_succ_push(i as int);
                crate::xml::lemma_tagged_children_push(
                    kids.take(i as int),
                    kids[i as int],
                    "Reference"@,
                );
                tagged_children(kids.take(i as int), "Reference"@).lemma_push_map_commute(
                    |c: XmlNodeView| reference_of(c),
                    kids[i as int],
                );
            }
            i = i + 1;
        }
        proof {
            kids.lemma_take_len();
        }
        ReferenceList { references }
    }
}

impl PubmedData {
    /// Builds the record from its node: the text of the last
    /// `PublicationStatus` child, the last `ArticleIdList` and `ReferenceList`
    /// children, and the `PubMedPubDate` entries of every `History` child
    /// appended in document order.
    pub fn from_node(node: &XmlNode) -> (r: Self)
        ensures
            r.deep_view() == pubmed_data_of(node@),
    {
        let ghost kids = children_of(node@);
        let mut publication_status: Option<String> = None;
        let mut article_id_list: Option<ArticleIdList> = None;
        let mut reference_list: Option<ReferenceList> = None;
        let mut history: Vec<PubMedPubDate> = Vec::new();
        let n = node.num_children();
        let mut i: usize = 0;
        while i < n
            invariant
                i <= n,
                n == kids.len(),
                kids == children_of(node@),
                publication_status.deep_view() == last_tagged_text(
                    kids.take(i as int),
                    "PublicationStatus"@,
                ),
                article_id_list.deep_view() == (match last_tagged(
                    kids.take(i as int),
                    "ArticleIdList"@,
                ) {
                    Some(c) => Some(article_id_list_of(c)),
                    None => None,
                }),
                reference_list.deep_view() == (match last_tagged(
                    kids.take(i as int),
                    "ReferenceList"@,
                ) {
                    Some(c) => Some(reference_list_of(c)),
                    None => None,
                }),
                history.deep_view() == history_of(kids.take(i as int)),
            decreases n - i,
        {
            let c = node.child(i);
            if c.has_tag("PublicationStatus") {
                publication_status = c.text();
            }
            if c.has_tag("ArticleIdList") {
                article_id_list = Some(ArticleIdList::from_node(c));
            }
            if c.has_tag("ReferenceList") {
                reference_list = Some(ReferenceList::from_node(c));
            }
            if c.has_tag("History") {
                let ghost hkids = children_of(c@);
                let m = c.num_children();
                let mut j: usize = 0;
                while j < m
                    invariant
                        j <= m,
                        m == hkids.len(),
                        hkids == children_of(c@),
                        c@ == kids[i as int],
                        i < kids.len(),
                        history.deep_view() == history_of(kids.take(i as int)) + pub_dates_of(
                            hkids.take(j as int),
                        ),
                    decreases m - j,
                {
                    let g = c.child(j);
                    let ghost prev = history.deep_view();
                    if g.has_tag("PubMedPubDate") {
                        history.push(PubMedPubDate::from_node(g));
                        proof {
                            assert(history.deep_view() =~= prev.push(
                                pubmed_pub_date_of(hkids[j as int]),
                            ));
                        }
                    }
                    proof {
                        hkids.lemma_take_succ_push(j as int);
                        crate::xml::lemma_tagged_children_push(
                            hkids.take(j as int),
                            hkids[j as int],
                            "PubMedPubDate"@,
                        );
                        tagged_children(hkids.take(j as int), "PubMedPubDate"@).lemma_push_map_commute(
                            |c: XmlNodeView| pubmed_pub_date_of(c),
                            hkids[j as int],
                        );
                        assert(history_of(kids.take(i as int)) + pub_dates_of(
                            hkids.take(j as int),
                        ).push(pubmed_pub_date_of(hkids[j as int])) =~= (history_of(
                            kids.take(i as int),
                        ) + pub_dates_of(hkids.take(j as int))).push(
                            pubmed_pub_date_of(hkids[j as int]),
                        ));
                    }
                    j = j + 1;
                }
                proof {
                    hkids.lemma_take_len();
                }
            }
            proof {
                kids.lemma_take_succ_push(i as int);
                crate::xml::lemma_last_tagged_push(
                    kids.take(i as int),
                    kids[i as int],
                    "PublicationStatus"@,
                );
                crate::xml::lemma_last_tagged_push(
                    kids.take(i as int),
                    kids[i as int],
                    "ArticleIdList"@,
                );
                crate::xml::lemma_last_tagged_push(
                    kids.take(i as int),
                    kids[i as int],
                    "ReferenceList"@,
                );
                lemma_history_push(kids.take(i as int), kids[i as int]);
            }
            i = i + 1;
        }
        proof {
            kids.lemma_take_len();
        }
        PubmedData { publication_status, article_id_list, reference_list, history }
    }
}

impl JournalIssue {
    /// Builds the record from its node: the `CitedMedium` attribute, the
    /// texts of the last `Volume` and `Issue` children, and the last
    /// `PubDate` child.
    pub fn from_node(node: &XmlNode) -> (r: Self)
        ensures
            r.deep_view() == journal_issue_of(node@),
    {
        let cited_medium = node.attribute("CitedMedium");
        let ghost kids = children_of(node@);
        let mut volume: Option<String> = None;
        let mut issue: Option<String> = None;
        let mut pub_date: Option<PubDate> = None;
        let n = node.num_children();
        let mut i: usize = 0;
        while i < n
            invariant
                i <= n,
                n == kids.len(),
                kids == children_of(node@),
                volume.deep_view() == last_tagged_text(kids.take(i as int), "Volume"@),
                issue.deep_view() == last_tagged_text(kids.take(i as int), "Issue"@),
                pub_date.deep_view() == (match last_tagged(kids.take(i as int), "PubDate"@) {
                    Some(c) => Some(pub_date_of(c)),
                    None => None,
                }),
            decreases n - i,
        {
            let c = node.child(i);
            if c.has_tag("Volume") {
                volume = c.text();
            }
            if c.has_tag("Issue") {
                issue = c.text();
            }
            if c.has_tag("PubDate") {
                pub_date = Some(PubDate::from_node(c));
            }
            proof {
                kids.lemma_take_succ_push(i as int);
                crate::xml::lemma_last_tagged_push(kids.take(i as int), kids[i as int], "Volume"@);
                crate::xml::lemma_last_tagged_push(kids.take(i as int), kids[i as int], "Issue"@);
                crate::xml::lemma_last_tagged_push(kids.take(i as int), kids[i as int], "PubDate"@);
            }
            i = i + 1;
        }
        proof {
            kids.lemma_take_len();
        }
        JournalIssue { cited_medium, volume, issue, pub_date }
    }
}

impl Journal {
    /// Builds the record from its node: the last `ISSN` and `JournalIssue`
    /// children and the texts of the last `Title` and `ISOAbbreviation`
    /// children.
    pub fn from_node(node: &XmlNode) -> (r: Self)
        ensures
            r.deep_view() == journal_of(node@),
    {
        let ghost kids = children_of(node@);
        let mut issn: Option<ISSN> = None;
        let mut journal_issue: Option<JournalIssue> = None;
        let mut title: Option<String> = None;
        let mut iso_abbr: Option<String> = None;
        let n = node.num_children();
        let mut i: usize = 0;
        while i < n
            invariant
                i <= n,
                n == kids.len(),
                kids == children_of(node@),
                issn.deep_view() == (match last_tagged(kids.take(i as int), "ISSN"@) {
                    Some(c) => Some(issn_of(c)),
                    None => None,
                }),
                journal_issue.deep_view() == (match last_tagged(
                    kids.take(i as int),
                    "JournalIssue"@,
                ) {
                    Some(c) => Some(journal_issue_of(c)),
                    None => None,
                }),
                title.deep_view() == last_tagged_text(kids.take(i as int), "Title"@),
                iso_abbr.deep_view() == last_tagged_text(kids.take(i as int), "ISOAbbreviation"@),
            decreases n - i,
        {
            let c = node.child(i);
            if c.has_tag("ISSN") {
                issn = Some(ISSN::from_node(c));
            }
            if c.has_tag("JournalIssue") {
                journal_issue = Some(JournalIssue::from_node(c));
            }
            if c.has_tag("Title") {
                title = c.text();
            }
            if c.has_tag("ISOAbbreviation") {
                iso_abbr = c.text();
            }
            proof {
                kids.lemma_take_succ_push(i as int);
                crate::xml::lemma_last_tagged_push(kids.take(i as int), kids[i as int], "ISSN"@);
                crate::xml::lemma_last_tagged_push(
                    kids.take(i as int),
                    kids[i as int],
                    "JournalIssue"@,
                );
                crate::xml::lemma_last_tagged_push(kids.take(i as int), kids[i as int], "Title"@);
                crate::xml::lemma_last_tagged_push(
                    kids.take(i as int),
                    kids[i as int],
                    "ISOAbbreviation"@,
                );
            }
            i = i + 1;
        }
        proof {
            kids.lemma_take_len();
        }
        Journal { issn, journal_issue, title, iso_abbr }
    }
}

impl Abstract {
    /// Builds the record from its node: one section per `AbstractText` child,
    /// in document order.
    pub fn from_node(node: &XmlNode) -> (r: Self)
        ensures
            r.deep_view() == abstract_of(node@),
    {
        let ghost kids = children_of(node@);
        let mut text: Vec<AbstractText> = Vec::new();
        let n = node.num_children();
        let mut i: usize = 0;
        while i < n
            invariant
                i <= n,
                n == kids.len(),
                kids == children_of(node@),
                text.deep_view() == abstract_texts_of(kids.take(i as int)),
            decreases n - i,
        {
            let c = node.child(i);
            let ghost prev = text.deep_view();
            if c.has_tag("AbstractText") {
                text.push(AbstractText::from_node(c));
                proof {
                    assert(text.deep_view() =~= prev.push(abstract_text_of(kids[i as int])));
                }
            }
            proof {
                kids.lemma_take_succ_push(i as int);
                crate::xml::lemma_tagged_children_push(
                    kids.take(i as int),
                    kids[i as int],
                    "AbstractText"@,
                );
                tagged_children(kids.take(i as int), "AbstractText"@).lemma_push_map_commute(
                    |c: XmlNodeView| abstract_text_of(c),
                    kids[i as int],
                );
            }
            i = i + 1;
        }
        proof {
            kids.lemma_take_len();
        }
        Abstract { text }
    }
}

impl Article {
    /// Builds the record from its node: the `PubModel` attribute, the texts
    /// of the last `ArticleTitle` and `Language` children, and the last
    /// `Journal`, `ELocationID` and `Abstract` children.
    pub fn from_node(node: &XmlNode) -> (r: Self)
        ensures
            r.deep_view() == article_of(node@),
    {
        let pub_model = node.attribute("PubModel");
        let ghost kids = children_of(node@);
        let mut title: Option<String> = None;
        let mut journal: Option<Journal> = None;
        let mut elocation_id: Option<ELocationID> = None;
        let mut language: Option<String> = None;
        let mut abstract_text: Option<Abstract> = None;
        let n = node.num_children();
        let mut i: usize = 0;
        while i < n
            invariant
                i <= n,
                n == kids.len(),
                kids == children_of(node@),
                title.deep_view() == last_tagged_text(kids.take(i as int), "ArticleTitle"@),
                journal.deep_view() == (match last_tagged(kids.take(i as int), "Journal"@) {
                    Some(c) => Some(journal_of(c)),
                    None => None,
                }),
                elocation_id.deep_view() == (match last_tagged(
                    kids.take(i as int),
                    "ELocationID"@,
                ) {
                    Some(c) => Some(elocation_id_of(c)),
                    None => None,
                }),
                language.deep_view() == last_tagged_text(kids.take(i as int), "Language"@),
                abstract_text.deep_view() == (match last_tagged(kids.take(i as int), "Abstract"@) {
                    Some(c) => Some(abstract_of(c)),
                    None => None,
                }),
            decreases n - i,
        {
            let c = node.child(i);
            if c.has_tag("ArticleTitle") {
                title = c.text();
            }
            if c.has_tag("Journal") {
                journal = Some(Journal::from_node(c));
            }
            if c.has_tag("ELocationID") {
                elocation_id = Some(ELocationID::from_node(c));
            }
            if c.has_tag("Language") {
                language = c.text();
            }
            if c.has_tag("Abstract") {
                abstract_text = Some(Abstract::from_node(c));
            }
            proof {
                kids.lemma_take_succ_push(i as int);
                crate::xml::lemma_last_tagged_push(
                    kids.take(i as int),
                    kids[i as int],
                    "ArticleTitle"@,
                );
                crate::xml::lemma_last_tagged_push(kids.take(i as int), kids[i as int], "Journal"@);
                crate::xml::lemma_last_tagged_push(
                    kids.take(i as int),
                    kids[i as int],
                    "ELocationID"@,
                );
                crate::xml::lemma_last_tagged_push(kids.take(i as int), kids[i as int], "Language"@);
                crate::xml::lemma_last_tagged_push(kids.take(i as int), kids[i as int], "Abstract"@);
            }
            i = i + 1;
        }
        proof {
            kids.lemma_take_len();
        }
        Article { pub_model, title, journal, elocation_id, language, abstract_text }
    }
}

impl MedlineCitation {
    /// Builds the record from its node: the `Status` and `Owner` attributes
    /// and the last `PMID`, `DateRevised`, `Article` and `MedlineJournalInfo`
    /// children.
    pub fn from_node(node: &XmlNode) -> (r: Self)
        ensures
            r.deep_view() == medline_citation_of(node@),
    {
        let status = node.attribute("Status");
        let owner = node.attribute("Owner");
        let ghost kids = children_of(node@);
        let mut pmid: Option<PMID> = None;
        let mut date_revised: Option<PubDate> = None;
        let mut article: Option<Article> = None;
        let mut medline_journal_info: Option<MedlineJournalInfo> = None;
        let n = node.num_children();
        let mut i: usize = 0;
        while i < n
            invariant
                i <= n,
                n == kids.len(),
                kids == children_of(node@),
                pmid.deep_view() == (match last_tagged(kids.take(i as int), "PMID"@) {
                    Some(c) => Some(pmid_of(c)),
                    None => None,
                }),
                date_revised.deep_view() == (match last_tagged(
                    kids.take(i as int),
                    "DateRevised"@,
                ) {
                    Some(c) => Some(pub_date_of(c)),
                    None => None,
                }),
                article.deep_view() == (match last_tagged(kids.take(i as int), "Article"@) {
                    Some(c) => Some(article_of(c)),
                    None => None,
                }),
                medline_journal_info.deep_view() == (match last_tagged(
                    kids.take(i as int),
                    "MedlineJournalInfo"@,
                ) {
                    Some(c) => Some(medline_journal_info_of(c)),
                    None => None,
                }),
            decreases n - i,
        {
            let c = node.child(i);
            if c.has_tag("PMID") {
                pmid = Some(PMID::from_node(c));
            }
            if c.has_tag("DateRevised") {
                date_revised = Some(PubDate::from_node(c));
            }
            if c.has_tag("Article") {
                article = Some(Article::from_node(c));
            }
            if c.has_tag("MedlineJournalInfo") {
                medline_journal_info = Some(MedlineJournalInfo::from_node(c));
            }
            proof {
                kids.lemma_take_succ_push(i as int);
                crate::xml::lemma_last_tagged_push(kids.take(i as int), kids[i as int], "PMID"@);
                crate::xml::lemma_last_tagged_push(
                    kids.take(i as int),
                    kids[i as int],
                    "DateRevised"@,
                );
                crate::xml::lemma_last_tagged_push(kids.take(i as int), kids[i as int], "Article"@);
                crate::xml::lemma_last_tagged_push(
                    kids.take(i as int),
                    kids[i as int],
                    "MedlineJournalInfo"@,
                );
            }
            i = i + 1;
        }
        proof {
            kids.lemma_take_len();
        }
        MedlineCitation { status, owner, pmid, date_revised, article, medline_journal_info }
    }
}

impl PubmedArticle {
    /// Builds the record from its node: the last `MedlineCitation` and
    /// `PubmedData` children. A record whose every field is absent is still
    /// valid.
    pub fn from_node(node: &XmlNode) -> (r: Self)
        ensures
            r.deep_view() == pubmed_article_of(node@),
    {
        let ghost kids = children_of(node@);
        let mut medline_citation: Option<MedlineCitation> = None;
        let mut pubmed_data: Option<PubmedData> = None;
        let n = node.num_children();
        let mut i: usize = 0;
        while i < n
            invariant
                i <= n,
                n == kids.len(),
                kids == children_of(node@),
                medline_citation.deep_view() == (match last_tagged(
                    kids.take(i as int),
                    "MedlineCitation"@,
                ) {
                    Some(c) => Some(medline_citation_of(c)),
                    None => None,
                }),
                pubmed_data.deep_view() == (match last_tagged(kids.take(i as int), "PubmedData"@) {
                    Some(c) => Some(pubmed_data_of(c)),
                    None => None,
                }),
            decreases n - i,
        {
            let c = node.child(i);
            if c.has_tag("MedlineCitation") {
                medline_citation = Some(MedlineCitation::from_node(c));
            }
            if c.has_tag("PubmedData") {
                pubmed_data = Some(PubmedData::from_node(c));
            }
            proof {
                kids.lemma_take_succ_push(i as int);
                crate::xml::lemma_last_tagged_push(
                    kids.take(i as int),
                    kids[i as int],
                    "MedlineCitation"@,
                );
                crate::xml::lemma_last_tagged_push(
                    kids.take(i as int),
                    kids[i as int],
                    "PubmedData"@,
                );
            }
            i = i + 1;
        }
        proof {
            kids.lemma_take_len();
        }
        PubmedArticle { medline_citation, pubmed_data }
    }
}

impl PubmedArticleSet {
    /// Builds the record from its node: one article per `PubmedArticle`
    /// child, in document order.
    pub fn from_node(node: &XmlNode) -> (r: Self)
        ensures
            r.deep_view() == pubmed_article_set_of(node@),
    {
        let ghost kids = children_of(node@);
        let mut articles: Vec<PubmedArticle> = Vec::new();
        let n = node.num_children();
        let mut i: usize = 0;
        while i < n
            invariant
                i <= n,
                n == kids.len(),
                kids == children_of(node@),
                articles.deep_view() == articles_of(kids.take(i as int)),
            decreases n - i,
        {
            let c = node.child(i);
            let ghost prev = articles.deep_view();
            if c.has_tag("PubmedArticle") {
                articles.push(PubmedArticle::from_node(c));
                proof {
                    assert(articles.deep_view() =~= prev.push(pubmed_article_of(kids[i as int])));
                }
            }
            proof {
                kids.lemma_take_succ_push(i as int);
                crate::xml::lemma_tagged_children_push(
                    kids.take(i as int),
                    kids[i as int],
                    "PubmedArticle"@,
                );
                tagged_children(kids.take(i as int), "PubmedArticle"@).lemma_push_map_commute(
                    |c: XmlNodeView| pubmed_article_of(c),
                    kids[i as int],
                );
            }
            i = i + 1;
        }
        proof {
            kids.lemma_take_len();
        }
        PubmedArticleSet { articles }
    }
}

impl PubmedArticleSet {
    /// What [`PubmedArticleSet::read`] returns for a given text. Exactly one
    /// of three things happens: a text that is not well-formed XML fails with
    /// the structural error of the tree provider, carried unchanged; a
    /// well-formed document without a `PubmedArticleSet` element among its
    /// descendants fails with the missing-root error; any other document
    /// yields the record collection denoted by the first such element found
    /// depth-first — never an error, however many fields are absent.
    pub open spec fn read_post(xml: Seq<char>, r: Result<PubmedArticleSet, Error>) -> bool {
        match crate::xml::xml_document_of(xml) {
            None => r matches Err(Error::ParsingError(ParsingErrorType::RXML(_))),
            Some(doc) => match first_tagged_from(doc, 0, "PubmedArticleSet"@) {
                None => r matches Err(Error::ParsingError(ParsingErrorType::MissingRoot)),
                Some(root) => r matches Ok(set) && set.deep_view() == pubmed_article_set_of(root),
            },
        }
    }

    /// Parses a fetched document into records: the top-level reader. A
    /// leading document type declaration is accepted and not validated
    /// against. The reader locates the single `PubmedArticleSet` element
    /// anywhere in the document (depth-first, first match wins) and drives
    /// the record builders from there; [`PubmedArticleSet::read_post`] pins
    /// down the result.
    pub fn read(xml: &str) -> (r: Result<Self, Error>)
        ensures
            Self::read_post(xml@, r),
    {
        let nodes = match parse_document(xml) {
            Ok(nodes) => nodes,
            Err(e) => {
                return Err(Error::from(e));
            },
        };
        match first_tagged(&nodes, "PubmedArticleSet") {
            Some(root) => Ok(PubmedArticleSet::from_node(root)),
            None => Err(Error::ParsingError(ParsingErrorType::MissingRoot)),
        }
    }
}

/// `after` is `before` with one more child at position `k`: both are
/// elements with the same tag, attributes and namespaces, and `after`'s child
/// list differs from `before`'s only by inserting `x` there.
pub open spec fn with_inserted_child(
    before: XmlNodeView,
    after: XmlNodeView,
    k: int,
    x: XmlNodeView,
) -> bool {
    &&& before matches XmlNodeView::Element(b) && after matches XmlNodeView::Element(a) && a.tag
        == b.tag && a.attributes == b.attributes && a.namespaces == b.namespaces && 0 <= k
        <= b.children.len() && a.children == b.children.insert(k, x)
}

/// Inserting a node that is no `History` element anywhere in a child list
/// leaves [`history_of`] unchanged.
pub proof fn lemma_history_insert_other(s: Seq<XmlNodeView>, k: int, x: XmlNodeView)
    requires
        0 <= k <= s.len(),
        !is_tagged(x, "History"@),
    ensures
        history_of(s.insert(k, x)) == history_of(s),
    decreases s.len(),
{
    let s2 = s.insert(k, x);
    if k == s.len() {
        assert(s2 =~= s.push(x));
        lemma_history_push(s, x);
    } else {
        assert(s2.last() == s.last());
        assert(s2.drop_last() =~= s.drop_last().insert(k, x));
        lemma_history_insert_other(s.drop_last(), k, x);
    }
}

/// Unknown-tag tolerance for [`PubDate`]: an extra child that carries none of
/// the recognised tags changes nothing.
pub proof fn lemma_pub_date_unknown_tag(
    before: XmlNodeView,
    after: XmlNodeView,
    k: int,
    x: XmlNodeView,
)
    requires
        with_inserted_child(before, after, k, x),
        !is_tagged(x, "Year"@),
        !is_tagged(x, "Month"@),
        !is_tagged(x, "Day"@),
    ensures
        pub_date_of(after) == pub_date_of(before),
{
    crate::xml::lemma_last_tagged_insert_other(children_of(before), k, x, "Year"@);
    crate::xml::lemma_last_tagged_insert_other(children_of(before), k, x, "Month"@);
    crate::xml::lemma_last_tagged_insert_other(children_of(before), k, x, "Day"@);
}

/// Unknown-tag tolerance for [`PubMedPubDate`].
pub proof fn lemma_pubmed_pub_date_unknown_tag(
    before: XmlNodeView,
    after: XmlNodeView,
    k: int,
    x: XmlNodeView,
)
    requires
        with_inserted_child(before, after, k, x),
        !is_tagged(x, "Year"@),
        !is_tagged(x, "Month"@),
        !is_tagged(x, "Day"@),
    ensures
        pubmed_pub_date_of(after) == pubmed_pub_date_of(before),
{
    crate::xml::lemma_last_tagged_insert_other(children_of(before), k, x, "Year"@);
    crate::xml::lemma_last_tagged_insert_other(children_of(before), k, x, "Month"@);
    crate::xml::lemma_last_tagged_insert_other(children_of(before), k, x, "Day"@);
}

/// Unknown-tag tolerance for [`MedlineJournalInfo`].
pub proof fn lemma_medline_journal_info_unknown_tag(
    before: XmlNodeView,
    after: XmlNodeView,
    k: int,
    x: XmlNodeView,
)
    requires
        with_inserted_child(before, after, k, x),
        !is_tagged(x, "Country"@),
        !is_tagged(x, "MedlineTA"@),
        !is_tagged(x, "NlmUniqueID"@),
        !is_tagged(x, "ISSNLinking"@),
    ensures
        medline_journal_info_of(after) == medline_journal_info_of(before),
{
    crate::xml::lemma_last_tagged_insert_other(children_of(before), k, x, "Country"@);
    crate::xml::lemma_last_tagged_insert_other(children_of(before), k, x, "MedlineTA"@);
    crate::xml::lemma_last_tagged_insert_other(children_of(before), k, x, "NlmUniqueID"@);
    crate::xml::lemma_last_tagged_insert_other(children_of(before), k, x, "ISSNLinking"@);
}

/// Unknown-tag tolerance for [`ArticleIdList`]: an extra child that is no
/// `ArticleId` element changes nothing.
pub proof fn lemma_article_id_list_unknown_tag(
    before: XmlNodeView,
    after: XmlNodeView,
    k: int,
    x: XmlNodeView,
)
    requires
        with_inserted_child(before, after, k, x),
        !is_tagged(x, "ArticleId"@),
    ensures
        article_id_list_of(after) == article_id_list_of(before),
{
    crate::xml::lemma_tagged_children_insert_other(children_of(before), k, x, "ArticleId"@);
}

/// Unknown-tag tolerance for [`ReferenceList`]: an extra child that is no
/// `Reference` element changes nothing.
pub proof fn lemma_reference_list_unknown_tag(
    before: XmlNodeView,
    after: XmlNodeView,
    k: int,
    x: XmlNodeView,
)
    requires
        with_inserted_child(before, after, k, x),
        !is_tagged(x, "Reference"@),
    ensures
        reference_list_of(after) == reference_list_of(before),
{
    crate::xml::lemma_tagged_children_insert_other(children_of(before), k, x, "Reference"@);
}

/// Unknown-tag tolerance for the entries of one `History` child: an extra
/// node that is no `PubMedPubDate` element changes nothing.
pub proof fn lemma_history_entries_unknown_tag(children: Seq<XmlNodeView>, k: int, x: XmlNodeView)
    requires
        0 <= k <= children.len(),
        !is_tagged(x, "PubMedPubDate"@),
    ensures
        pub_dates_of(children.insert(k, x)) == pub_dates_of(children),
{
    crate::xml::lemma_tagged_children_insert_other(children, k, x, "PubMedPubDate"@);
}

/// Unknown-tag tolerance for [`Reference`].
pub proof fn lemma_reference_unknown_tag(
    before: XmlNodeView,
    after: XmlNodeView,
    k: int,
    x: XmlNodeView,
)
    requires
        with_inserted_child(before, after, k, x),
        !is_tagged(x, "Citation"@),
        !is_tagged(x, "ArticleIdList"@),
    ensures
        reference_of(after) == reference_of(before),
{
    crate::xml::lemma_last_tagged_insert_other(children_of(before), k, x, "Citation"@);
    crate::xml::lemma_last_tagged_insert_other(children_of(before), k, x, "ArticleIdList"@);
}

/// Unknown-tag tolerance for [`PubmedData`].
pub proof fn lemma_pubmed_data_unknown_tag(
    before: XmlNodeView,
    after: XmlNodeView,
    k: int,
    x: XmlNodeView,
)
    requires
        with_inserted_child(before, after, k, x),
        !is_tagged(x, "PublicationStatus"@),
        !is_tagged(x, "ArticleIdList"@),
        !is_tagged(x, "ReferenceList"@),
        !is_tagged(x, "History"@),
    ensures
        pubmed_data_of(after) == pubmed_data_of(before),
{
    crate::xml::lemma_last_tagged_insert_other(children_of(before), k, x, "PublicationStatus"@);
    crate::xml::lemma_last_tagged_insert_other(children_of(before), k, x, "ArticleIdList"@);
    crate::xml::lemma_last_tagged_insert_other(children_of(before), k, x, "ReferenceList"@);
    lemma_history_insert_other(children_of(before), k, x);
}

/// Unknown-tag tolerance for [`JournalIssue`].
pub proof fn lemma_journal_issue_unknown_tag(
    before: XmlNodeView,
    after: XmlNodeView,
    k: int,
    x: XmlNodeView,
)
    requires
        with_inserted_child(before, after, k, x),
        !is_tagged(x, "Volume"@),
        !is_tagged(x, "Issue"@),
        !is_tagged(x, "PubDate"@),
    ensures
        journal_issue_of(after) == journal_issue_of(before),
{
    crate::xml::lemma_last_tagged_insert_other(children_of(before), k, x, "Volume"@);
    crate::xml::lemma_last_tagged_insert_other(children_of(before), k, x, "Issue"@);
    crate::xml::lemma_last_tagged_insert_other(children_of(before), k, x, "PubDate"@);
}

/// Unknown-tag tolerance for [`Journal`].
pub proof fn lemma_journal_unknown_tag(
    before: XmlNodeView,
    after: XmlNodeView,
    k: int,
    x: XmlNodeView,
)
    requires
        with_inserted_child(before, after, k, x),
        !is_tagged(x, "ISSN"@),
        !is_tagged(x, "JournalIssue"@),
        !is_tagged(x, "Title"@),
        !is_tagged(x, "ISOAbbreviation"@),
    ensures
        journal_of(after) == journal_of(before),
{
    crate::xml::lemma_last_tagged_insert_other(children_of(before), k, x, "ISSN"@);
    crate::xml::lemma_last_tagged_insert_other(children_of(before), k, x, "JournalIssue"@);
    crate::xml::lemma_last_tagged_insert_other(children_of(before), k, x, "Title"@);
    crate::xml::lemma_last_tagged_insert_other(children_of(before), k, x, "ISOAbbreviation"@);
}

/// Unknown-tag tolerance for [`Abstract`]: an extra child that is no
/// `AbstractText` element changes nothing.
pub proof fn lemma_abstract_unknown_tag(
    before: XmlNodeView,
    after: XmlNodeView,
    k: int,
    x: XmlNodeView,
)
    requires
        with_inserted_child(before, after, k, x),
        !is_tagged(x, "AbstractText"@),
    ensures
        abstract_of(after) == abstract_of(before),
{
    crate::xml::lemma_tagged_children_insert_other(children_of(before), k, x, "AbstractText"@);
}

/// Unknown-tag tolerance for [`Article`].
pub proof fn lemma_article_unknown_tag(
    before: XmlNodeView,
    after: XmlNodeView,
    k: int,
    x: XmlNodeView,
)
    requires
        with_inserted_child(before, after, k, x),
        !is_tagged(x, "ArticleTitle"@),
        !is_tagged(x, "Journal"@),
        !is_tagged(x, "ELocationID"@),
        !is_tagged(x, "Language"@),
        !is_tagged(x, "Abstract"@),
    ensures
        article_of(after) == article_of(before),
{
    crate::xml::lemma_last_tagged_insert_other(children_of(before), k, x, "ArticleTitle"@);
    crate::xml::lemma_last_tagged_insert_other(children_of(before), k, x, "Journal"@);
    crate::xml::lemma_last_tagged_insert_other(children_of(before), k, x, "ELocationID"@);
    crate::xml::lemma_last_tagged_insert_other(children_of(before), k, x, "Language"@);
    crate::xml::lemma_last_tagged_insert_other(children_of(before), k, x, "Abstract"@);
}

/// Unknown-tag tolerance for [`MedlineCitation`].
pub proof fn lemma_medline_citation_unknown_tag(
    before: XmlNodeView,
    after: XmlNodeView,
    k: int,
    x: XmlNodeView,
)
    requires
        with_inserted_child(before, after, k, x),
        !is_tagged(x, "PMID"@),
        !is_tagged(x, "DateRevised"@),
        !is_tagged(x, "Article"@),
        !is_tagged(x, "MedlineJournalInfo"@),
    ensures
        medline_citation_of(after) == medline_citation_of(before),
{
    crate::xml::lemma_last_tagged_insert_other(children_of(before), k, x, "PMID"@);
    crate::xml::lemma_last_tagged_insert_other(children_of(before), k, x, "DateRevised"@);
    crate::xml::lemma_last_tagged_insert_other(children_of(before), k, x, "Article"@);
    crate::xml::lemma_last_tagged_insert_other(children_of(before), k, x, "MedlineJournalInfo"@);
}

/// Unknown-tag tolerance for [`PubmedArticle`].
pub proof fn lemma_pubmed_article_unknown_tag(
    before: XmlNodeView,
    after: XmlNodeView,
    k: int,
    x: XmlNodeView,
)
    requires
        with_inserted_child(before, after, k, x),
        !is_tagged(x, "MedlineCitation"@),
        !is_tagged(x, "PubmedData"@),
    ensures
        pubmed_article_of(after) == pubmed_article_of(before),
{
    crate::xml::lemma_last_tagged_insert_other(children_of(before), k, x, "MedlineCitation"@);
    crate::xml::lemma_last_tagged_insert_other(children_of(before), k, x, "PubmedData"@);
}

/// Unknown-tag tolerance for [`PubmedArticleSet`]: an extra child that is no
/// `PubmedArticle` element changes nothing.
pub proof fn lemma_pubmed_article_set_unknown_tag(
    before: XmlNodeView,
    after: XmlNodeView,
    k: int,
    x: XmlNodeView,
)
    requires
        with_inserted_child(before, after, k, x),
        !is_tagged(x, "PubmedArticle"@),
    ensures
        pubmed_article_set_of(after) == pubmed_article_set_of(before),
{
    crate::xml::lemma_tagged_children_insert_other(children_of(before), k, x, "PubmedArticle"@);
}

/// Absence default: a record node with no `MedlineCitation` and no
/// `PubmedData` child element yields a record with both fields absent — never
/// an error, [`PubmedArticle::from_node`] is total.
pub proof fn lemma_pubmed_article_absent(n: XmlNodeView)
    requires
        forall|i: int|
            0 <= i < children_of(n).len() ==> !is_tagged(
                #[trigger] children_of(n)[i],
                "MedlineCitation"@,
            ),
        forall|i: int|
            0 <= i < children_of(n).len() ==> !is_tagged(
                #[trigger] children_of(n)[i],
                "PubmedData"@,
            ),
    ensures
        pubmed_article_of(n).medline_citation is None,
        pubmed_article_of(n).pubmed_data is None,
{
    crate::xml::lemma_last_tagged_none(children_of(n), "MedlineCitation"@);
    crate::xml::lemma_last_tagged_none(children_of(n), "PubmedData"@);
}

/// Order preservation for identifier lists: when a node's children are N
/// sibling `ArticleId` elements, the list has exactly N entries and the k-th
/// entry is built from the k-th sibling.
pub proof fn lemma_article_id_list_order(n: XmlNodeView)
    requires
        forall|i: int|
            0 <= i < children_of(n).len() ==> is_tagged(#[trigger] children_of(n)[i], "ArticleId"@),
    ensures
        article_id_list_of(n).article_ids.len() == children_of(n).len(),
        forall|i: int|
            0 <= i < children_of(n).len() ==> #[trigger] article_id_list_of(n).article_ids[i]
                == article_id_of(children_of(n)[i]),
{
    crate::xml::lemma_tagged_children_all(children_of(n), "ArticleId"@);
}

/// Order preservation for reference lists: when a node's children are N
/// sibling `Reference` elements, the list has exactly N entries in document
/// order.
pub proof fn lemma_reference_list_order(n: XmlNodeView)
    requires
        forall|i: int|
            0 <= i < children_of(n).len() ==> is_tagged(#[trigger] children_of(n)[i], "Reference"@),
    ensures
        reference_list_of(n).references.len() == children_of(n).len(),
        forall|i: int|
            0 <= i < children_of(n).len() ==> #[trigger] reference_list_of(n).references[i]
                == reference_of(children_of(n)[i]),
{
    crate::xml::lemma_tagged_children_all(children_of(n), "Reference"@);
}

/// Order preservation for abstracts: when a node's children are N sibling
/// `AbstractText` elements, the abstract has exactly N sections in document
/// order.
pub proof fn lemma_abstract_order(n: XmlNodeView)
    requires
        forall|i: int|
            0 <= i < children_of(n).len() ==> is_tagged(
                #[trigger] children_of(n)[i],
                "AbstractText"@,
            ),
    ensures
        abstract_of(n).text.len() == children_of(n).len(),
        forall|i: int|
            0 <= i < children_of(n).len() ==> #[trigger] abstract_of(n).text[i]
                == abstract_text_of(children_of(n)[i]),
{
    crate::xml::lemma_tagged_children_all(children_of(n), "AbstractText"@);
}

/// Order preservation for the result set: when a node's children are N
/// sibling `PubmedArticle` elements, the set has exactly N articles in
/// document order.
pub proof fn lemma_pubmed_article_set_order(n: XmlNodeView)
    requires
        forall|i: int|
            0 <= i < children_of(n).len() ==> is_tagged(
                #[trigger] children_of(n)[i],
                "PubmedArticle"@,
            ),
    ensures
        pubmed_article_set_of(n).articles.len() == children_of(n).len(),
        forall|i: int|
            0 <= i < children_of(n).len() ==> #[trigger] pubmed_article_set_of(n).articles[i]
                == pubmed_article_of(children_of(n)[i]),
{
    crate::xml::lemma_tagged_children_all(children_of(n), "PubmedArticle"@);
}

/// Order preservation for publication history entries: when a `History`
/// node's children are N sibling `PubMedPubDate` elements, they contribute
/// exactly N entries in document order.
pub proof fn lemma_history_entries_order(children: Seq<XmlNodeView>)
    requires
        forall|i: int| 0 <= i < children.len() ==> is_tagged(#[trigger] children[i], "PubMedPubDate"@),
    ensures
        pub_dates_of(children).len() == children.len(),
        forall|i: int|
            0 <= i < children.len() ==> #[trigger] pub_dates_of(children)[i]
                == pubmed_pub_date_of(children[i]),
{
    crate::xml::lemma_tagged_children_all(children, "PubMedPubDate"@);
}

/// Idempotence: what [`PubmedArticleSet::read`] returns is a function of the
/// text alone — two reads of the same document succeed or fail alike, fail
/// the same way, and on success hold field-for-field identical record
/// collections.
pub proof fn lemma_read_idempotent(
    xml: Seq<char>,
    r1: Result<PubmedArticleSet, Error>,
    r2: Result<PubmedArticleSet, Error>,
)
    requires
        PubmedArticleSet::read_post(xml, r1),
        PubmedArticleSet::read_post(xml, r2),
    ensures
        r1 is Ok <==> r2 is Ok,
        r1 matches Ok(s1) ==> (r2 matches Ok(s2) && s1.deep_view() == s2.deep_view()),
        (r1 matches Err(Error::ParsingError(ParsingErrorType::MissingRoot))) <==> (
        r2 matches Err(Error::ParsingError(ParsingErrorType::MissingRoot))),
{
    match crate::xml::xml_document_of(xml) {
        None => {},
        Some(doc) => {
            match first_tagged_from(doc, 0, "PubmedArticleSet"@) {
                None => {},
                Some(root) => {
                    assert(r1 matches Ok(s1) && s1.deep_view() == pubmed_article_set_of(root));
                    assert(r2 matches Ok(s2) && s2.deep_view() == pubmed_article_set_of(root));
                },
            }
        },
    }
}

} // verus!
