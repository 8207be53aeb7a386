//! Behaviour of the individual components: elements, grammars, parsers,
//! formatter sets and document specifications.

use notes_toolbox::doc_spec::{DocSpec, PlainDoc, TaggedDoc};
use notes_toolbox::doc_type::DocType;
use notes_toolbox::elements::Elements;
use notes_toolbox::errors::{FormatterError, ParseError};
use notes_toolbox::formatter::Formatter;
use notes_toolbox::formatter_set::{FormatterSet, RenderStrategy};
use notes_toolbox::grammar::GrammarConfig;
use notes_toolbox::parser::Parser;

#[test]
fn elements_compare_structurally() {
    let a = Elements::Text { text: b"run".to_vec() };
    let b = Elements::Text { text: b"run".to_vec() };
    let c = Elements::Text { text: b"other".to_vec() };
    let d = Elements::BoldText { text: b"run".to_vec() };
    assert_eq!(a, b);
    assert_ne!(a, c);
    assert_ne!(a, d);
}

#[test]
fn parser_reports_its_document_type() {
    let grammar = GrammarConfig::new(b"**".to_vec(), None);
    let parser = Parser::new(DocType::Tagged, grammar);
    assert_eq!(parser.get_type(), DocType::Tagged);
}

#[test]
fn custom_delimiter_grammar_parses() {
    let grammar = GrammarConfig::new(b"__".to_vec(), None);
    let parser = Parser::new(DocType::Plain, grammar);
    let elements = parser.parse(&b"a __b__ c".to_vec()).unwrap();
    assert_eq!(
        elements,
        vec![
            Elements::Text { text: b"a ".to_vec() },
            Elements::BoldText { text: b"b".to_vec() },
            Elements::Text { text: b" c".to_vec() },
        ]
    );
}

#[test]
fn escape_byte_makes_delimiter_literal() {
    let grammar = GrammarConfig::new(b"**".to_vec(), Some(b'\\'));
    let parser = Parser::new(DocType::Plain, grammar);
    let elements = parser.parse(&b"a\\**b".to_vec()).unwrap();
    assert_eq!(elements, vec![Elements::Text { text: b"a**b".to_vec() }]);
}

#[test]
fn escape_byte_at_end_stands_for_itself() {
    let grammar = GrammarConfig::new(b"**".to_vec(), Some(b'\\'));
    let parser = Parser::new(DocType::Plain, grammar);
    let elements = parser.parse(&b"ab\\".to_vec()).unwrap();
    assert_eq!(elements, vec![Elements::Text { text: b"ab\\".to_vec() }]);
}

#[test]
fn unterminated_markup_mid_source_reports_opening_offset() {
    let grammar = GrammarConfig::new(b"**".to_vec(), None);
    let parser = Parser::new(DocType::Plain, grammar);
    let result = parser.parse(&b"a**b**c**d".to_vec());
    assert_eq!(result, Err(ParseError::UnterminatedMarkup { offset: 7 }));
}

#[test]
fn missing_strategy_is_an_unsupported_element() {
    let set = FormatterSet::new(Some(RenderStrategy::identity()), None);
    let rendered = set.render(&Elements::BoldText { text: b"b".to_vec() });
    assert_eq!(rendered, Err(FormatterError::UnsupportedElement));
    let formatter = Formatter::new(DocType::Plain, FormatterSet::new(
        Some(RenderStrategy::identity()),
        None,
    ));
    let result = formatter.format(&vec![
        Elements::Text { text: b"a".to_vec() },
        Elements::BoldText { text: b"b".to_vec() },
    ]);
    assert_eq!(result, Err(FormatterError::UnsupportedElement));
}

#[test]
fn render_wraps_payload_in_prefix_and_suffix() {
    let strategy = RenderStrategy::new(b"[".to_vec(), b"]".to_vec());
    let set = FormatterSet::new(Some(RenderStrategy::identity()), Some(strategy));
    let rendered = set.render(&Elements::BoldText { text: b"mid".to_vec() }).unwrap();
    assert_eq!(rendered, b"[mid]".to_vec());
    let rendered = set.render(&Elements::Text { text: b"mid".to_vec() }).unwrap();
    assert_eq!(rendered, b"mid".to_vec());
}

#[test]
fn formatter_exposes_type_and_set() {
    let formatter = Formatter::new(DocType::Tagged, FormatterSet::new(None, None));
    assert_eq!(*formatter.get_type(), DocType::Tagged);
    assert!(formatter.get_formatter_set().text.is_none());
    assert!(formatter.get_formatter_set().bold.is_none());
}

#[test]
fn doc_spec_factories_are_configured() {
    assert_eq!(PlainDoc::get_name(), "plain");
    assert_eq!(PlainDoc::get_type(), DocType::Plain);
    assert_eq!(TaggedDoc::get_name(), "tagged");
    assert_eq!(TaggedDoc::get_type(), DocType::Tagged);

    let parser = PlainDoc::create_parser();
    assert_eq!(parser.get_type(), DocType::Plain);
    let elements = parser.parse(&b"x**y**".to_vec()).unwrap();
    let formatter = PlainDoc::create_formatter();
    assert_eq!(formatter.format(&elements).unwrap(), b"x**y**".to_vec());

    let formatter = TaggedDoc::create_formatter();
    assert_eq!(formatter.format(&elements).unwrap(), b"x<b>y</b>".to_vec());
}

#[test]
fn formatting_is_stateless_per_call() {
    let formatter = PlainDoc::create_formatter();
    let elements = vec![Elements::BoldText { text: b"twice".to_vec() }];
    let first = formatter.format(&elements).unwrap();
    let second = formatter.format(&elements).unwrap();
    assert_eq!(first, second);
    assert_eq!(first, b"**twice**".to_vec());
}
