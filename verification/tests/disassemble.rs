use il4il::disassemble::disassembly_to_string;
use il4il::identifier::Identifier;
use il4il::module::section::Metadata;
use il4il::module::section::Section;
use il4il::module::Module;
use il4il::module::ModuleName;
use il4il::versioning::Format;

#[test]
fn write_format_version() {
    assert_eq!(
        ".format {\n    .major 1;\n    .minor 0;\n}",
        disassembly_to_string(&Format::new(1, 0)).as_str()
    )
}

#[test]
fn very_simple_module() {
    let mut module = Module::new();
    module.push_section(Section::Metadata(vec![Metadata::Name(ModuleName::from_name(
        Identifier::from_boxed_str("Hello").unwrap(),
    ))]));

    assert_eq!(
        ".format {\n    .major 0;\n    .minor 1;\n}\n.section metadata {\n    .name \"Hello\";\n}",
        disassembly_to_string(&module)
    )
}

#[test]
fn empty_metadata_section_has_an_empty_block() {
    let mut module = Module::new();
    module.push_section(Section::Metadata(Vec::new()));
    assert_eq!(
        ".format {\n    .major 0;\n    .minor 1;\n}\n.section metadata {\n}",
        disassembly_to_string(&module)
    )
}

#[test]
fn names_are_quoted_with_escapes() {
    let mut module = Module::new();
    module.push_section(Section::Metadata(vec![Metadata::Name(ModuleName::from_name(
        Identifier::from_boxed_str("a\"b").unwrap(),
    ))]));
    assert!(disassembly_to_string(&module).ends_with(".name \"a\\\"b\";\n}"));
}
