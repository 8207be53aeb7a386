//! End-to-end behaviour of the parse/format pipeline through the registry.

use notes_toolbox::doc_type::DocType;
use notes_toolbox::elements::Elements;
use notes_toolbox::errors::{ParseError, RegistryError};
use notes_toolbox::registry::specification_for;

fn parse_as(doc_type: &[u8], source: &[u8]) -> Result<Vec<Elements>, ParseError> {
    let spec = specification_for(&doc_type.to_vec()).expect("registered document type");
    let parser = spec.create_parser();
    parser.parse(&source.to_vec())
}

fn render_as(doc_type: &[u8], source: &[u8]) -> Vec<u8> {
    let spec = specification_for(&doc_type.to_vec()).expect("registered document type");
    let parser = spec.create_parser();
    let formatter = spec.create_formatter();
    let elements = parser.parse(&source.to_vec()).expect("source parses");
    formatter.format(&elements).expect("every element kind has a strategy")
}

fn text(payload: &[u8]) -> Elements {
    Elements::Text { text: payload.to_vec() }
}

fn bold(payload: &[u8]) -> Elements {
    Elements::BoldText { text: payload.to_vec() }
}

#[test]
fn hello_world_parses_to_three_elements() {
    let elements = parse_as(b"plain", b"Hello **world**!").unwrap();
    assert_eq!(elements, vec![text(b"Hello "), bold(b"world"), text(b"!")]);
}

#[test]
fn hello_world_formats_plain() {
    assert_eq!(render_as(b"plain", b"Hello **world**!"), b"Hello **world**!".to_vec());
}

#[test]
fn hello_world_formats_tagged() {
    assert_eq!(render_as(b"tagged", b"Hello **world**!"), b"Hello <b>world</b>!".to_vec());
}

#[test]
fn unterminated_markup_fails_with_offset() {
    let result = parse_as(b"plain", b"Hello **world");
    assert_eq!(result, Err(ParseError::UnterminatedMarkup { offset: 6 }));
}

#[test]
fn empty_input_is_empty_for_every_registered_type() {
    for doc_type in [b"plain".as_slice(), b"tagged".as_slice()] {
        let elements = parse_as(doc_type, b"").unwrap();
        assert_eq!(elements.len(), 0);
        assert_eq!(render_as(doc_type, b""), Vec::<u8>::new());
    }
}

#[test]
fn adjacent_delimiters_parse_to_empty_bold() {
    let elements = parse_as(b"plain", b"****").unwrap();
    assert_eq!(elements, vec![bold(b"")]);
    assert_eq!(render_as(b"plain", b"****"), b"****".to_vec());
    assert_eq!(render_as(b"tagged", b"****"), b"<b></b>".to_vec());
}

#[test]
fn unknown_document_type_is_rejected() {
    let result = specification_for(&b"pdf".to_vec());
    assert!(matches!(result, Err(RegistryError::UnknownDocumentType)));
    let result = specification_for(&b"".to_vec());
    assert!(matches!(result, Err(RegistryError::UnknownDocumentType)));
    let result = specification_for(&b"plain ".to_vec());
    assert!(matches!(result, Err(RegistryError::UnknownDocumentType)));
}

#[test]
fn unmarked_source_is_one_text_element() {
    let source = b"no markup in here, just * single stars *";
    let elements = parse_as(b"plain", source).unwrap();
    assert_eq!(elements, vec![text(source)]);
    assert_eq!(render_as(b"plain", source), source.to_vec());
}

#[test]
fn balanced_sources_round_trip_through_plain() {
    let sources: [&[u8]; 6] = [
        b"",
        b"plain words",
        b"**all bold**",
        b"a**b**c**d**e",
        b"****",
        b"ending bold **tail**",
    ];
    for source in sources {
        assert_eq!(render_as(b"plain", source), source.to_vec());
    }
}

#[test]
fn bold_spans_do_not_nest() {
    // A second opening delimiter inside a bold span closes it; the span's
    // content is everything up to the first closing occurrence.
    let elements = parse_as(b"plain", b"a**b**c**d**").unwrap();
    assert_eq!(elements, vec![text(b"a"), bold(b"b"), text(b"c"), bold(b"d")]);
}

#[test]
fn registry_lookup_reports_name_and_type() {
    let spec = specification_for(&b"plain".to_vec()).unwrap();
    assert_eq!(spec.get_name().as_slice(), b"plain");
    assert_eq!(spec.get_type(), DocType::Plain);
    let spec = specification_for(&b"tagged".to_vec()).unwrap();
    assert_eq!(spec.get_name().as_slice(), b"tagged");
    assert_eq!(spec.get_type(), DocType::Tagged);
}

#[test]
fn factories_yield_independent_instances() {
    let spec = specification_for(&b"plain".to_vec()).unwrap();
    let first = spec.create_parser();
    let second = spec.create_parser();
    let source = b"x**y**".to_vec();
    assert_eq!(first.parse(&source).unwrap(), second.parse(&source).unwrap());
    let formatter_a = spec.create_formatter();
    let formatter_b = spec.create_formatter();
    let elements = first.parse(&source).unwrap();
    assert_eq!(formatter_a.format(&elements).unwrap(), formatter_b.format(&elements).unwrap());
}
