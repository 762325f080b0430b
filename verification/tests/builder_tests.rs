use entrez_rs::parser::pubmed::{
    Abstract, AbstractText, ArticleId, ArticleIdList, PubDate, PubMedPubDate, ReferenceList,
};
use entrez_rs::xml::{XmlAttribute, XmlElement, XmlNamespace, XmlNode};

fn elem(tag: &str, children: Vec<XmlNode>) -> XmlNode {
    XmlNode::Element(XmlElement {
        tag: tag.to_string(),
        attributes: Vec::new(),
        namespaces: Vec::new(),
        children,
    })
}

fn text_elem(tag: &str, value: &str) -> XmlNode {
    elem(tag, vec![XmlNode::Text(value.to_string())])
}

#[test]
fn pub_date_last_occurrence_wins() {
    let node = elem(
        "PubDate",
        vec![
            text_elem("Year", "2001"),
            text_elem("Month", "May"),
            text_elem("Year", "2002"),
        ],
    );

    let date = PubDate::from_node(&node);
    assert_eq!(date.year.as_deref(), Some("2002"));
    assert_eq!(date.month.as_deref(), Some("May"));
    assert!(date.day.is_none());
}

#[test]
fn pub_date_ignores_unknown_children() {
    let node = elem(
        "PubDate",
        vec![
            text_elem("Year", "1999"),
            text_elem("Season", "Winter"),
            XmlNode::Text("loose text".to_string()),
            XmlNode::Comment("a comment".to_string()),
        ],
    );

    let date = PubDate::from_node(&node);
    assert_eq!(date.year.as_deref(), Some("1999"));
    assert!(date.month.is_none());
    assert!(date.day.is_none());
}

#[test]
fn pubmed_pub_date_reads_status_attribute() {
    let node = XmlNode::Element(XmlElement {
        tag: "PubMedPubDate".to_string(),
        attributes: vec![XmlAttribute {
            name: "PubStatus".to_string(),
            value: "received".to_string(),
        }],
        namespaces: Vec::new(),
        children: vec![text_elem("Year", "2020")],
    });

    let date = PubMedPubDate::from_node(&node);
    assert_eq!(date.pub_status.as_deref(), Some("received"));
    assert_eq!(date.year.as_deref(), Some("2020"));
}

#[test]
fn article_id_reads_attribute_and_text() {
    let node = XmlNode::Element(XmlElement {
        tag: "ArticleId".to_string(),
        attributes: vec![XmlAttribute {
            name: "IdType".to_string(),
            value: "doi".to_string(),
        }],
        namespaces: Vec::new(),
        children: vec![XmlNode::Text("10.1000/x".to_string())],
    });

    let id = ArticleId::from_node(&node);
    assert_eq!(id.id_type.as_deref(), Some("doi"));
    assert_eq!(id.id.as_deref(), Some("10.1000/x"));
}

#[test]
fn article_id_absent_parts_stay_absent() {
    let node = elem("ArticleId", vec![]);

    let id = ArticleId::from_node(&node);
    assert!(id.id_type.is_none());
    assert!(id.id.is_none());
}

#[test]
fn article_id_list_keeps_article_id_children_in_order() {
    let node = elem(
        "ArticleIdList",
        vec![
            text_elem("ArticleId", "one"),
            XmlNode::Text("  ".to_string()),
            text_elem("ArticleId", "two"),
            text_elem("ArticleId", "three"),
        ],
    );

    let list = ArticleIdList::from_node(&node);
    assert_eq!(list.article_ids.len(), 3);
    assert_eq!(list.article_ids[0].id.as_deref(), Some("one"));
    assert_eq!(list.article_ids[1].id.as_deref(), Some("two"));
    assert_eq!(list.article_ids[2].id.as_deref(), Some("three"));
}

#[test]
fn article_id_list_skips_unknown_tags() {
    let node = elem(
        "ArticleIdList",
        vec![
            text_elem("ArticleId", "one"),
            text_elem("Zzz", "not an identifier"),
            text_elem("ArticleId", "two"),
        ],
    );

    let list = ArticleIdList::from_node(&node);
    assert_eq!(list.article_ids.len(), 2);
    assert_eq!(list.article_ids[0].id.as_deref(), Some("one"));
    assert_eq!(list.article_ids[1].id.as_deref(), Some("two"));
}

#[test]
fn reference_list_skips_unknown_tags() {
    let node = elem(
        "ReferenceList",
        vec![
            elem("Reference", vec![text_elem("Citation", "a cited work")]),
            text_elem("Title", "not a reference"),
        ],
    );

    let list = ReferenceList::from_node(&node);
    assert_eq!(list.references.len(), 1);
    assert_eq!(list.references[0].citation.as_deref(), Some("a cited work"));
}

#[test]
fn abstract_text_without_children_has_no_value() {
    let node = elem("AbstractText", vec![]);

    let section = AbstractText::from_node(&node);
    assert!(section.value.is_none());
}

#[test]
fn abstract_text_serializes_childless_inline_element_as_empty_pair() {
    let node = elem(
        "AbstractText",
        vec![
            XmlNode::Text("a".to_string()),
            elem("b", vec![]),
            XmlNode::Text("c".to_string()),
        ],
    );

    let section = AbstractText::from_node(&node);
    assert_eq!(section.value.as_deref(), Some("a<b></b>c"));
}

#[test]
fn abstract_text_serializes_two_levels_of_markup() {
    let sup = text_elem("sup", "2");
    let inner = XmlNode::Element(XmlElement {
        tag: "i".to_string(),
        attributes: Vec::new(),
        namespaces: Vec::new(),
        children: vec![XmlNode::Text("x".to_string()), sup],
    });
    let node = elem(
        "AbstractText",
        vec![XmlNode::Text("value ".to_string()), inner],
    );

    let section = AbstractText::from_node(&node);
    assert_eq!(section.value.as_deref(), Some("value <i>x<sup>2</sup></i>"));
}

#[test]
fn abstract_text_qualifies_prefixed_namespace() {
    let math = XmlNode::Element(XmlElement {
        tag: "math".to_string(),
        attributes: Vec::new(),
        namespaces: vec![XmlNamespace {
            prefix: Some("mml".to_string()),
            uri: "http://www.w3.org/1998/Math/MathML".to_string(),
        }],
        children: vec![XmlNode::Text("y".to_string())],
    });
    let node = elem("AbstractText", vec![math]);

    let section = AbstractText::from_node(&node);
    assert_eq!(
        section.value.as_deref(),
        Some("<mml:math xmlns:mml=\"http://www.w3.org/1998/Math/MathML\">y</mml:math>")
    );
}

#[test]
fn abstract_text_leaves_default_namespace_unqualified() {
    let math = XmlNode::Element(XmlElement {
        tag: "math".to_string(),
        attributes: Vec::new(),
        namespaces: vec![XmlNamespace {
            prefix: None,
            uri: "http://www.w3.org/1998/Math/MathML".to_string(),
        }],
        children: vec![XmlNode::Text("y".to_string())],
    });
    let node = elem("AbstractText", vec![math]);

    let section = AbstractText::from_node(&node);
    assert_eq!(section.value.as_deref(), Some("<math>y</math>"));
}

#[test]
fn abstract_text_redeclared_binding_is_not_re_emitted() {
    let mml = || XmlNamespace {
        prefix: Some("mml".to_string()),
        uri: "http://www.w3.org/1998/Math/MathML".to_string(),
    };
    let mi = XmlNode::Element(XmlElement {
        tag: "mi".to_string(),
        attributes: Vec::new(),
        namespaces: vec![mml()],
        children: vec![XmlNode::Text("y".to_string())],
    });
    let math = XmlNode::Element(XmlElement {
        tag: "math".to_string(),
        attributes: Vec::new(),
        namespaces: vec![mml()],
        children: vec![mi],
    });
    let node = elem("AbstractText", vec![math]);

    let section = AbstractText::from_node(&node);
    assert_eq!(
        section.value.as_deref(),
        Some("<mml:math xmlns:mml=\"http://www.w3.org/1998/Math/MathML\"><mi>y</mi></mml:math>")
    );
}

#[test]
fn abstract_text_rebound_prefix_is_re_emitted() {
    let mi = XmlNode::Element(XmlElement {
        tag: "mi".to_string(),
        attributes: Vec::new(),
        namespaces: vec![XmlNamespace {
            prefix: Some("mml".to_string()),
            uri: "https://example.net/other".to_string(),
        }],
        children: vec![XmlNode::Text("y".to_string())],
    });
    let math = XmlNode::Element(XmlElement {
        tag: "math".to_string(),
        attributes: Vec::new(),
        namespaces: vec![XmlNamespace {
            prefix: Some("mml".to_string()),
            uri: "http://www.w3.org/1998/Math/MathML".to_string(),
        }],
        children: vec![mi],
    });
    let node = elem("AbstractText", vec![math]);

    let section = AbstractText::from_node(&node);
    assert_eq!(
        section.value.as_deref(),
        Some("<mml:math xmlns:mml=\"http://www.w3.org/1998/Math/MathML\">\
<mml:mi xmlns:mml=\"https://example.net/other\">y</mml:mi></mml:math>")
    );
}

#[test]
fn abstract_collects_only_abstract_text_children() {
    let node = elem(
        "Abstract",
        vec![
            text_elem("AbstractText", "one"),
            text_elem("CopyrightInformation", "skip me"),
            text_elem("AbstractText", "two"),
        ],
    );

    let summary = Abstract::from_node(&node);
    assert_eq!(summary.text.len(), 2);
    assert_eq!(summary.text[0].value.as_deref(), Some("one"));
    assert_eq!(summary.text[1].value.as_deref(), Some("two"));
}

#[test]
fn builder_on_text_node_reads_its_text() {
    let node = XmlNode::Text("12345".to_string());

    let id = ArticleId::from_node(&node);
    assert!(id.id_type.is_none());
    assert_eq!(id.id.as_deref(), Some("12345"));
}
