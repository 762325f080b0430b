use entrez_rs::errors::{Error, ParsingErrorType};
use entrez_rs::parser::pubmed::PubmedArticleSet;

#[test]
fn read_two_articles_end_to_end() {
    let xml = "<?xml version=\"1.0\" ?>\
<PubmedArticleSet>\
<PubmedArticle>\
<MedlineCitation Status=\"MEDLINE\" Owner=\"NLM\">\
<PMID Version=\"1\">33246200</PMID>\
<Article PubModel=\"Print\">\
<ArticleTitle>A title</ArticleTitle>\
<Language>eng</Language>\
<Abstract>\
<AbstractText Label=\"BACKGROUND\">first part</AbstractText>\
<AbstractText Label=\"RESULTS\">second part</AbstractText>\
</Abstract>\
</Article>\
</MedlineCitation>\
</PubmedArticle>\
<PubmedArticle>\
<MedlineCitation Status=\"MEDLINE\" Owner=\"NLM\">\
<PMID Version=\"1\">33243171</PMID>\
</MedlineCitation>\
</PubmedArticle>\
</PubmedArticleSet>";

    let parsed = PubmedArticleSet::read(xml).expect("a well-formed document with a root parses");
    assert_eq!(parsed.articles.len(), 2);

    let citation = parsed.articles[0].medline_citation.as_ref().unwrap();
    assert_eq!(citation.status.as_deref(), Some("MEDLINE"));
    assert_eq!(citation.owner.as_deref(), Some("NLM"));
    let pmid = citation.pmid.as_ref().unwrap();
    assert_eq!(pmid.version.as_deref(), Some("1"));
    assert_eq!(pmid.value.as_deref(), Some("33246200"));

    let article = citation.article.as_ref().unwrap();
    assert_eq!(article.pub_model.as_deref(), Some("Print"));
    assert_eq!(article.title.as_deref(), Some("A title"));
    assert_eq!(article.language.as_deref(), Some("eng"));

    let sections = &article.abstract_text.as_ref().unwrap().text;
    assert_eq!(sections.len(), 2);
    assert_eq!(sections[0].label.as_deref(), Some("BACKGROUND"));
    assert_eq!(sections[0].value.as_deref(), Some("first part"));
    assert_eq!(sections[1].label.as_deref(), Some("RESULTS"));
    assert_eq!(sections[1].value.as_deref(), Some("second part"));

    let second = parsed.articles[1].medline_citation.as_ref().unwrap();
    assert_eq!(second.pmid.as_ref().unwrap().value.as_deref(), Some("33243171"));
    assert!(parsed.articles[1].pubmed_data.is_none());
}

#[test]
fn read_accepts_document_type_declaration() {
    let xml = "<?xml version=\"1.0\" ?>\
<!DOCTYPE PubmedArticleSet PUBLIC \"-//NLM//DTD PubMedArticle, 1st January 2019//EN\" \"https://dtd.nlm.nih.gov/ncbi/pubmed/out/pubmed_190101.dtd\">\
<PubmedArticleSet><PubmedArticle><MedlineCitation Status=\"MEDLINE\">\
<PMID Version=\"1\">33246200</PMID></MedlineCitation></PubmedArticle></PubmedArticleSet>";

    let parsed = PubmedArticleSet::read(xml)
        .expect("a document type declaration is accepted, not validated");
    assert_eq!(parsed.articles.len(), 1);
    let citation = parsed.articles[0].medline_citation.as_ref().unwrap();
    assert_eq!(citation.pmid.as_ref().unwrap().value.as_deref(), Some("33246200"));
}

#[test]
fn read_missing_root_fails() {
    let xml = "<?xml version=\"1.0\" ?><SomethingElse><Inner/></SomethingElse>";

    let parsed = PubmedArticleSet::read(xml);
    assert!(matches!(
        parsed,
        Err(Error::ParsingError(ParsingErrorType::MissingRoot))
    ));
}

#[test]
fn read_malformed_document_fails() {
    let xml = "<PubmedArticleSet><PubmedArticle></PubmedArticleSet>";

    let parsed = PubmedArticleSet::read(xml);
    assert!(matches!(
        parsed,
        Err(Error::ParsingError(ParsingErrorType::RXML(_)))
    ));
}

#[test]
fn read_twice_yields_identical_collections() {
    let xml = "<PubmedArticleSet><PubmedArticle><MedlineCitation Status=\"In-Process\">\
<PMID>123</PMID></MedlineCitation></PubmedArticle></PubmedArticleSet>";

    let first = PubmedArticleSet::read(xml).expect("parses");
    let second = PubmedArticleSet::read(xml).expect("parses");
    assert_eq!(first, second);
}

#[test]
fn read_mixed_content_round_trip() {
    let xml = "<PubmedArticleSet><PubmedArticle><MedlineCitation><Article><Abstract>\
<AbstractText>plain <i>emphasized</i> more plain</AbstractText>\
</Abstract></Article></MedlineCitation></PubmedArticle></PubmedArticleSet>";

    let parsed = PubmedArticleSet::read(xml).expect("parses");
    let citation = parsed.articles[0].medline_citation.as_ref().unwrap();
    let sections = &citation.article.as_ref().unwrap().abstract_text.as_ref().unwrap().text;
    assert_eq!(sections.len(), 1);
    assert_eq!(
        sections[0].value.as_deref(),
        Some("plain <i>emphasized</i> more plain")
    );
}

#[test]
fn read_mixed_content_keeps_namespace_declaration() {
    let xml = "<PubmedArticleSet><PubmedArticle><MedlineCitation><Article><Abstract>\
<AbstractText>x <mml:math xmlns:mml=\"http://www.w3.org/1998/Math/MathML\">y</mml:math></AbstractText>\
</Abstract></Article></MedlineCitation></PubmedArticle></PubmedArticleSet>";

    let parsed = PubmedArticleSet::read(xml).expect("parses");
    let citation = parsed.articles[0].medline_citation.as_ref().unwrap();
    let sections = &citation.article.as_ref().unwrap().abstract_text.as_ref().unwrap().text;
    assert_eq!(
        sections[0].value.as_deref(),
        Some("x <mml:math xmlns:mml=\"http://www.w3.org/1998/Math/MathML\">y</mml:math>")
    );
}

#[test]
fn read_absent_children_yield_absent_fields() {
    let xml = "<PubmedArticleSet><PubmedArticle></PubmedArticle></PubmedArticleSet>";

    let parsed = PubmedArticleSet::read(xml).expect("an all-absent record is still valid");
    assert_eq!(parsed.articles.len(), 1);
    assert!(parsed.articles[0].medline_citation.is_none());
    assert!(parsed.articles[0].pubmed_data.is_none());
}

#[test]
fn read_skips_unknown_tags_without_change() {
    let plain = "<PubmedArticleSet><PubmedArticle><MedlineCitation>\
<PMID>7</PMID></MedlineCitation></PubmedArticle></PubmedArticleSet>";
    let extended = "<PubmedArticleSet><PubmedArticle><MedlineCitation>\
<PMID>7</PMID><CoiStatement>nothing to declare</CoiStatement></MedlineCitation>\
</PubmedArticle></PubmedArticleSet>";

    let parsed_plain = PubmedArticleSet::read(plain).expect("parses");
    let parsed_extended = PubmedArticleSet::read(extended).expect("unknown tags are no error");
    assert_eq!(parsed_plain, parsed_extended);
}

#[test]
fn read_preserves_identifier_order() {
    let xml = "<PubmedArticleSet><PubmedArticle><PubmedData>\
<PublicationStatus>ppublish</PublicationStatus>\
<ArticleIdList>\
<ArticleId IdType=\"pubmed\">33246200</ArticleId>\
<ArticleId IdType=\"doi\">10.1000/demo</ArticleId>\
<ArticleId IdType=\"pii\">S000</ArticleId>\
</ArticleIdList>\
<History>\
<PubMedPubDate PubStatus=\"received\"><Year>2020</Year><Month>6</Month><Day>9</Day></PubMedPubDate>\
<PubMedPubDate PubStatus=\"accepted\"><Year>2020</Year><Month>11</Month></PubMedPubDate>\
</History>\
</PubmedData></PubmedArticle></PubmedArticleSet>";

    let parsed = PubmedArticleSet::read(xml).expect("parses");
    let data = parsed.articles[0].pubmed_data.as_ref().unwrap();
    assert_eq!(data.publication_status.as_deref(), Some("ppublish"));

    let ids = &data.article_id_list.as_ref().unwrap().article_ids;
    assert_eq!(ids.len(), 3);
    assert_eq!(ids[0].id_type.as_deref(), Some("pubmed"));
    assert_eq!(ids[0].id.as_deref(), Some("33246200"));
    assert_eq!(ids[1].id_type.as_deref(), Some("doi"));
    assert_eq!(ids[1].id.as_deref(), Some("10.1000/demo"));
    assert_eq!(ids[2].id_type.as_deref(), Some("pii"));

    assert_eq!(data.history.len(), 2);
    assert_eq!(data.history[0].pub_status.as_deref(), Some("received"));
    assert_eq!(data.history[0].day.as_deref(), Some("9"));
    assert_eq!(data.history[1].pub_status.as_deref(), Some("accepted"));
    assert_eq!(data.history[1].month.as_deref(), Some("11"));
    assert!(data.history[1].day.is_none());
}

#[test]
fn read_unknown_tag_in_identifier_list_adds_no_entry() {
    let plain = "<PubmedArticleSet><PubmedArticle><PubmedData>\
<ArticleIdList><ArticleId IdType=\"pubmed\">33246200</ArticleId></ArticleIdList>\
</PubmedData></PubmedArticle></PubmedArticleSet>";
    let extended = "<PubmedArticleSet><PubmedArticle><PubmedData>\
<ArticleIdList><ArticleId IdType=\"pubmed\">33246200</ArticleId><Zzz/></ArticleIdList>\
</PubmedData></PubmedArticle></PubmedArticleSet>";

    let parsed_plain = PubmedArticleSet::read(plain).expect("parses");
    let parsed_extended = PubmedArticleSet::read(extended).expect("unknown tags are no error");
    assert_eq!(parsed_plain, parsed_extended);
    let ids = &parsed_plain.articles[0].pubmed_data.as_ref().unwrap().article_id_list.as_ref().unwrap().article_ids;
    assert_eq!(ids.len(), 1);
}

#[test]
fn read_unknown_tag_in_history_adds_no_entry() {
    let xml = "<PubmedArticleSet><PubmedArticle><PubmedData><History>\
<PubMedPubDate PubStatus=\"received\"><Year>2020</Year></PubMedPubDate>\
<SomethingElse>ignored</SomethingElse>\
</History></PubmedData></PubmedArticle></PubmedArticleSet>";

    let parsed = PubmedArticleSet::read(xml).expect("parses");
    let history = &parsed.articles[0].pubmed_data.as_ref().unwrap().history;
    assert_eq!(history.len(), 1);
    assert_eq!(history[0].pub_status.as_deref(), Some("received"));
}

#[test]
fn read_inherited_namespace_is_not_re_emitted() {
    let xml = "<PubmedArticleSet><PubmedArticle><MedlineCitation><Article><Abstract>\
<AbstractText>x <mml:math xmlns:mml=\"http://www.w3.org/1998/Math/MathML\">a<mml:mi>y</mml:mi></mml:math></AbstractText>\
</Abstract></Article></MedlineCitation></PubmedArticle></PubmedArticleSet>";

    let parsed = PubmedArticleSet::read(xml).expect("parses");
    let citation = parsed.articles[0].medline_citation.as_ref().unwrap();
    let sections = &citation.article.as_ref().unwrap().abstract_text.as_ref().unwrap().text;
    assert_eq!(
        sections[0].value.as_deref(),
        Some("x <mml:math xmlns:mml=\"http://www.w3.org/1998/Math/MathML\">a<mi>y</mi></mml:math>")
    );
}

#[test]
fn read_journal_fields() {
    let xml = "<PubmedArticleSet><PubmedArticle><MedlineCitation>\
<Article><Journal>\
<ISSN IssnType=\"Electronic\">1476-4687</ISSN>\
<JournalIssue CitedMedium=\"Internet\"><Volume>588</Volume><Issue>7837</Issue>\
<PubDate><Year>2020</Year><Month>Dec</Month></PubDate></JournalIssue>\
<Title>Nature</Title>\
<ISOAbbreviation>Nature</ISOAbbreviation>\
</Journal>\
<ELocationID EIdType=\"doi\" ValidYN=\"Y\">10.1038/demo</ELocationID>\
</Article>\
<MedlineJournalInfo><Country>England</Country><MedlineTA>Nature</MedlineTA>\
<NlmUniqueID>0410462</NlmUniqueID><ISSNLinking>0028-0836</ISSNLinking></MedlineJournalInfo>\
<DateRevised><Year>2021</Year><Month>01</Month><Day>05</Day></DateRevised>\
</MedlineCitation></PubmedArticle></PubmedArticleSet>";

    let parsed = PubmedArticleSet::read(xml).expect("parses");
    let citation = parsed.articles[0].medline_citation.as_ref().unwrap();

    let revised = citation.date_revised.as_ref().unwrap();
    assert_eq!(revised.year.as_deref(), Some("2021"));
    assert_eq!(revised.month.as_deref(), Some("01"));
    assert_eq!(revised.day.as_deref(), Some("05"));

    let info = citation.medline_journal_info.as_ref().unwrap();
    assert_eq!(info.country.as_deref(), Some("England"));
    assert_eq!(info.medline_ta.as_deref(), Some("Nature"));
    assert_eq!(info.nlm_unique_id.as_deref(), Some("0410462"));
    assert_eq!(info.issn_linking.as_deref(), Some("0028-0836"));

    let article = citation.article.as_ref().unwrap();
    let journal = article.journal.as_ref().unwrap();
    let issn = journal.issn.as_ref().unwrap();
    assert_eq!(issn.issn_type.as_deref(), Some("Electronic"));
    assert_eq!(issn.value.as_deref(), Some("1476-4687"));
    assert_eq!(journal.title.as_deref(), Some("Nature"));
    assert_eq!(journal.iso_abbr.as_deref(), Some("Nature"));
    let issue = journal.journal_issue.as_ref().unwrap();
    assert_eq!(issue.cited_medium.as_deref(), Some("Internet"));
    assert_eq!(issue.volume.as_deref(), Some("588"));
    assert_eq!(issue.issue.as_deref(), Some("7837"));
    let pub_date = issue.pub_date.as_ref().unwrap();
    assert_eq!(pub_date.year.as_deref(), Some("2020"));
    assert_eq!(pub_date.month.as_deref(), Some("Dec"));
    assert!(pub_date.day.is_none());

    let eloc = article.elocation_id.as_ref().unwrap();
    assert_eq!(eloc.eid_type.as_deref(), Some("doi"));
    assert_eq!(eloc.valid_yn.as_deref(), Some("Y"));
    assert_eq!(eloc.value.as_deref(), Some("10.1038/demo"));
}

#[test]
fn read_references() {
    let xml = "<PubmedArticleSet><PubmedArticle><PubmedData>\
<ReferenceList>\
<Reference><Citation>First cited work</Citation>\
<ArticleIdList><ArticleId IdType=\"pubmed\">111</ArticleId></ArticleIdList></Reference>\
<Reference><Citation>Second cited work</Citation></Reference>\
</ReferenceList>\
</PubmedData></PubmedArticle></PubmedArticleSet>";

    let parsed = PubmedArticleSet::read(xml).expect("parses");
    let refs = &parsed.articles[0].pubmed_data.as_ref().unwrap().reference_list.as_ref().unwrap().references;
    assert_eq!(refs.len(), 2);
    assert_eq!(refs[0].citation.as_deref(), Some("First cited work"));
    assert_eq!(refs[0].article_id_list.article_ids.len(), 1);
    assert_eq!(refs[0].article_id_list.article_ids[0].id.as_deref(), Some("111"));
    assert_eq!(refs[1].citation.as_deref(), Some("Second cited work"));
    assert_eq!(refs[1].article_id_list.article_ids.len(), 0);
}
