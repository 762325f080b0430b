use entrez_rs::errors::{Error, ParsingErrorType};

#[test]
fn roxmltree_error_becomes_parsing_error() {
    let failure = roxmltree::Document::parse("<unclosed").unwrap_err();

    let converted = Error::from(failure);
    assert!(matches!(
        converted,
        Error::ParsingError(ParsingErrorType::RXML(_))
    ));
}

#[test]
fn quick_xml_error_becomes_parsing_error() {
    let failure: quick_xml::DeError =
        quick_xml::de::from_str::<String>("<open>").unwrap_err();

    let converted = Error::from(failure);
    assert!(matches!(
        converted,
        Error::ParsingError(ParsingErrorType::QXML(_))
    ));
}
