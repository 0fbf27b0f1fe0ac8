use il4il::assembly::assemble;
use il4il::assembly::error::Error;
use il4il::assembly::lexer::tokenize;
use il4il::assembly::parser;
use il4il::assembly::parser::node_parser;
use il4il::assembly::syntax::literal;
use il4il::assembly::syntax::structure::Attribute;
use il4il::assembly::syntax::structure::Node;
use il4il::assembly::syntax::structure::NodeContents;
use il4il::assembly::syntax::structure::NodeKind;
use il4il::assembly::syntax::structure::Tree;
use il4il::assembly::syntax::Located;
use il4il::assembly::try_assemble;
use il4il::module::section::Section;

fn messages(errors: &[Error]) -> Vec<String> {
    errors.iter().map(|e| e.to_text()).collect()
}

#[test]
fn directive_test() {
    let tokens = tokenize(".example word;\n");
    let mut errors = Vec::new();
    let output = node_parser::parse(tokens.tokens(), tokens.offsets(), &mut errors);
    assert!(errors.is_empty());
    assert_eq!(
        output,
        Tree {
            contents: vec![Located::new(
                Node {
                    kind: Located::new(NodeKind::Directive("example".to_string()), 0..8),
                    contents: NodeContents::Line(vec![Located::new(Attribute::Word("word".to_string()), 9..13)]),
                },
                0..14
            )]
        }
    );
}

#[test]
fn block_nodes_keep_their_attributes() {
    let tokens = tokenize(".section metadata {\n}");
    let mut errors = Vec::new();
    let output = node_parser::parse(tokens.tokens(), tokens.offsets(), &mut errors);
    assert!(errors.is_empty());
    assert_eq!(
        output,
        Tree {
            contents: vec![Located::new(
                Node {
                    kind: Located::new(NodeKind::Directive("section".to_string()), 0..8),
                    contents: NodeContents::Block {
                        attributes: vec![Located::new(Attribute::Word("metadata".to_string()), 9..17)],
                        nodes: Vec::new(),
                    },
                },
                0..21
            )]
        }
    );
}

#[test]
fn unknown_tokens_in_nodes_are_errors() {
    let tokens = tokenize(".a x-y;");
    let mut errors = Vec::new();
    let output = node_parser::parse(tokens.tokens(), tokens.offsets(), &mut errors);
    assert_eq!(output.contents.len(), 1);
    assert_eq!(messages(&errors), vec!["1:4 - unexpected 'x-y'".to_string()]);
    assert_eq!(errors[0].format_message(), "unexpected 'x-y'");
}

#[test]
fn tokens_outside_nodes_are_errors() {
    let tokens = tokenize("word");
    let mut errors = Vec::new();
    let output = node_parser::parse(tokens.tokens(), tokens.offsets(), &mut errors);
    assert!(output.contents.is_empty());
    assert_eq!(messages(&errors), vec!["1:1 - unexpected 'word', expected directive or word".to_string()]);
}

#[test]
fn second_opening_bracket_is_an_error() {
    let tokens = tokenize(".a { { }");
    let mut errors = Vec::new();
    node_parser::parse(tokens.tokens(), tokens.offsets(), &mut errors);
    assert_eq!(messages(&errors), vec!["1:6 - unexpected opening bracket in block".to_string()]);
}

#[test]
fn unfinished_nodes_are_not_handled() {
    let tokens = tokenize(".a .b;");
    assert!(!node_parser::nodes_complete(tokens.tokens(), tokens.offsets()));
    let tokens = tokenize(".a word");
    assert!(!node_parser::nodes_complete(tokens.tokens(), tokens.offsets()));
    let tokens = tokenize(".a }");
    assert!(!node_parser::nodes_complete(tokens.tokens(), tokens.offsets()));
    let tokens = tokenize(".a { };");
    assert!(node_parser::nodes_complete(tokens.tokens(), tokens.offsets()));
    assert!(try_assemble(".a .b;").is_none());
}

#[test]
fn empty_metadata_section_is_assembled() {
    let module = assemble(".section metadata {\n}\n").unwrap();
    assert_eq!(module.sections().len(), 1);
    assert!(matches!(&module.sections()[0], Section::Metadata(entries) if entries.is_empty()));
    let module = assemble(".section metadata;").unwrap();
    assert_eq!(module.sections().len(), 1);
}

#[test]
fn empty_text_gives_an_empty_module() {
    let module = assemble("").unwrap();
    assert!(module.sections().is_empty());
    assert!(try_assemble("\n\n").unwrap().unwrap().sections().is_empty());
}

#[test]
fn unknown_directive_fails_assembly() {
    let errors = assemble("\n.bad;").unwrap_err().into_assembly_error();
    assert_eq!(messages(&errors), vec!["2:1 - unknown directive \".bad\", expected \".section\"".to_string()]);
}

#[test]
fn section_errors_are_reported() {
    let errors = assemble(".section;").unwrap_err().into_assembly_error();
    assert_eq!(messages(&errors), vec!["1:1 - expected section kind, unexpected end".to_string()]);
    let errors = assemble(".section code;").unwrap_err().into_assembly_error();
    assert_eq!(messages(&errors), vec!["1:10 - \"code\" is not a known section kind".to_string()]);
    let errors = assemble(".section metadata extra;").unwrap_err().into_assembly_error();
    assert_eq!(messages(&errors), vec!["1:19 - unexpected \"extra\"".to_string()]);
}

#[test]
fn parse_keeps_the_line_offsets() {
    let tokens = tokenize(".section metadata;\n");
    let mut errors = Vec::new();
    let output = parser::parse(tokens, &mut errors);
    assert!(errors.is_empty());
    assert_eq!(output.tree().directives.len(), 1);
    assert_eq!(output.offsets().byte_length(), 19);
}

#[test]
fn literal_strings_are_quoted_with_escapes() {
    let s = literal::String::new("a\"b\n\u{1}é".to_string());
    assert_eq!(s.to_text(), "\"a\\\"b\\\n\\u0x01\\u0xE9\"");
    assert_eq!(s.contents(), "a\"b\n\u{1}é");
    assert_eq!(s.into_contents(), "a\"b\n\u{1}é");
}

#[test]
fn literal_integers_omit_separators() {
    let i = literal::Integer::new(Some('x'), "FF_00".to_string());
    assert_eq!(i.iter_digits(), vec!['F', 'F', '0', '0']);
    assert_eq!(i.original_digits(), "FF_00");
    assert_eq!(i.base(), Some('x'));
    assert_eq!(i.to_text(), "0xFF_00");
    assert_eq!(literal::Integer::new(None, "1_2".to_string()).to_text(), "1_2");
}

#[test]
fn failed_assembly_lists_each_error_on_a_line() {
    let error = assemble(".bad;\nword").unwrap_err();
    assert_eq!(
        error.to_text(),
        "2:1 - unexpected 'word', expected directive or word\n1:1 - unknown directive \".bad\", expected \".section\"\n"
    );
}
