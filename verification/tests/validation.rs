use il4il::function::Body;
use il4il::function::Definition;
use il4il::function::Import;
use il4il::function::Instantiation;
use il4il::function::Signature;
use il4il::function::Template;
use il4il::identifier::Identifier;
use il4il::index;
use il4il::instruction::value::ConstantInteger;
use il4il::instruction::Block;
use il4il::instruction::Instruction;
use il4il::instruction::Value;
use il4il::module::section::Section;
use il4il::module::Module;
use il4il::symbol::Assignment;
use il4il::symbol::Kind;
use il4il::symbol::TargetKind;
use il4il::type_system::IntegerSign;
use il4il::type_system::IntegerSize;
use il4il::type_system::Reference;
use il4il::type_system::SizedInteger;
use il4il::type_system::Type;
use il4il::validation::error::ErrorKind;
use il4il::validation::error::IndexKind;
use il4il::validation::error::InvalidIndexError;
use il4il::validation::error::InvalidInstructionKind;
use il4il::validation::ModuleContents;
use il4il::validation::ValidModule;

fn id(s: &str) -> Identifier {
    Identifier::from_boxed_str(s).unwrap()
}

fn module(sections: Vec<Section>) -> Module {
    let mut module = Module::new();
    module.set_sections(sections);
    module
}

fn import() -> Import {
    Import::new(index::Module::new(0), id("f"), index::FunctionSignature::new(0))
}

fn symbols(names: &[(&str, usize)]) -> Section {
    let mut assignment = Assignment::new(Kind::Export, TargetKind::FunctionTemplate);
    for (name, index) in names {
        assignment.symbols.push((id(name), *index));
    }
    Section::Symbol(vec![assignment])
}

fn byte_type() -> Reference {
    Reference::Inline(Type::from_sized(SizedInteger::new(IntegerSign::unsigned(), IntegerSize::i8())))
}

fn returning_body(values: Vec<Value>) -> Body {
    Body::new(vec![byte_type()], Block::from_types(Vec::new(), 0, vec![Instruction::Return(values)]), Vec::new())
}

#[test]
fn empty_module_is_valid() {
    assert!(ValidModule::from_module(Module::new()).is_ok());
}

#[test]
fn valid_module_keeps_its_contents_and_symbols() {
    let valid = ValidModule::from_module(module(vec![
        Section::FunctionImport(vec![import()]),
        symbols(&[("f", 0)]),
        Section::Code(vec![returning_body(vec![Value::from_integer(ConstantInteger::Byte(1))])]),
        Section::FunctionSignature(vec![Signature::from_types(vec![byte_type()], 1)]),
        Section::FunctionDefinition(vec![Definition::new(index::FunctionSignature::new(0), index::FunctionBody::new(0))]),
        Section::FunctionInstantiation(vec![Instantiation::with_template(index::FunctionTemplate::new(1))]),
        Section::EntryPoint(index::FunctionInstantiation::new(0)),
    ]))
    .unwrap();
    assert_eq!(valid.symbol_lookup().entries().len(), 1);
    assert!(valid.symbol_lookup().get_index("f").is_some());
    assert!(valid.symbol_lookup().get_index("g").is_none());
    assert_eq!(valid.contents().function_bodies.len(), 1);
}

#[test]
fn duplicate_symbols_are_invalid() {
    let error = ValidModule::from_module(module(vec![symbols(&[("a", 0), ("a", 1)])])).err().unwrap();
    assert!(matches!(error.kind(), ErrorKind::DuplicateSymbol(_)));
}

#[test]
fn symbols_must_name_existing_templates() {
    let error = ValidModule::from_module(module(vec![symbols(&[("a", 0)])])).err().unwrap();
    assert_eq!(
        error.kind(),
        &ErrorKind::InvalidSymbolTarget {
            symbol: 0,
            error: InvalidIndexError { kind: IndexKind::FunctionTemplate, index: 0, maximum: None },
        }
    );
}

#[test]
fn instantiations_must_name_existing_templates() {
    let error = ValidModule::from_module(module(vec![
        Section::FunctionImport(vec![import()]),
        Section::FunctionInstantiation(vec![Instantiation::with_template(index::FunctionTemplate::new(2))]),
    ]))
    .err().unwrap();
    assert_eq!(
        error.kind(),
        &ErrorKind::InvalidInstantiation {
            instantiation: 0,
            error: InvalidIndexError { kind: IndexKind::FunctionTemplate, index: 2, maximum: Some(0) },
        }
    );
}

#[test]
fn blocks_must_end_with_a_terminator() {
    let body = Body::new(Vec::new(), Block::from_types(Vec::new(), 0, Vec::new()), Vec::new());
    let error = ValidModule::from_module(module(vec![Section::Code(vec![body])])).err().unwrap();
    match error.kind() {
        ErrorKind::InvalidInstruction { body, error } => {
            assert_eq!(*body, 0);
            assert_eq!(error.block_index.get(), 0);
            assert!(error.location.is_none());
            assert_eq!(error.kind, InvalidInstructionKind::ExpectedTerminator);
        }
        other => panic!("unexpected error {other:?}"),
    }
}

#[test]
fn instructions_after_a_terminator_are_invalid() {
    let block = Block::from_types(Vec::new(), 0, vec![Instruction::Unreachable, Instruction::Unreachable]);
    let body = Body::new(Vec::new(), block, Vec::new());
    let error = ValidModule::from_module(module(vec![Section::Code(vec![body])])).err().unwrap();
    match error.kind() {
        ErrorKind::InvalidInstruction { error, .. } => {
            assert_eq!(error.kind, InvalidInstructionKind::ExpectedTerminatorAsLastInstruction);
            assert_eq!(error.location.as_ref().map(|l| l.index), Some(1));
        }
        other => panic!("unexpected error {other:?}"),
    }
}

#[test]
fn return_values_must_match_the_result_types() {
    let error = ValidModule::from_module(module(vec![Section::Code(vec![returning_body(Vec::new())])])).err().unwrap();
    match error.kind() {
        ErrorKind::InvalidInstruction { error, .. } => {
            assert_eq!(error.kind, InvalidInstructionKind::ResultCountMismatch { expected: 1, actual: 0 });
        }
        other => panic!("unexpected error {other:?}"),
    }
}

#[test]
fn definitions_must_name_existing_signatures() {
    let error = ValidModule::from_module(module(vec![Section::FunctionDefinition(vec![Definition::new(
        index::FunctionSignature::new(0),
        index::FunctionBody::new(0),
    )])]))
    .err().unwrap();
    assert_eq!(
        error.kind(),
        &ErrorKind::InvalidDefinitionSignature {
            definition: 0,
            error: InvalidIndexError { kind: IndexKind::FunctionSignature, index: 0, maximum: None },
        }
    );
}

#[test]
fn definitions_must_name_existing_bodies() {
    let error = ValidModule::from_module(module(vec![
        Section::FunctionSignature(vec![Signature::from_types(Vec::new(), 0)]),
        Section::FunctionDefinition(vec![Definition::new(index::FunctionSignature::new(0), index::FunctionBody::new(3))]),
    ]))
    .err().unwrap();
    assert_eq!(
        error.kind(),
        &ErrorKind::InvalidDefinitionBody {
            definition: 0,
            error: InvalidIndexError { kind: IndexKind::FunctionBody, index: 3, maximum: None },
        }
    );
}

#[test]
fn at_most_one_entry_point() {
    let error = ValidModule::from_module(module(vec![
        Section::EntryPoint(index::FunctionInstantiation::new(0)),
        Section::EntryPoint(index::FunctionInstantiation::new(0)),
    ]))
    .err().unwrap();
    assert_eq!(error.kind(), &ErrorKind::TooManyEntryPoints(2));
}

#[test]
fn instruction_text_matches_debug_formatting() {
    let instructions = vec![
        Instruction::Unreachable,
        Instruction::Return(Vec::new()),
        Instruction::Return(vec![
            Value::from_integer(ConstantInteger::Byte(7)),
            Value::from_integer(ConstantInteger::I32([1, 2, 3, 4])),
            Value::from_integer(ConstantInteger::SignedMinimum),
            Value::from_float(il4il::instruction::value::ConstantFloat::Half([0, 60])),
        ]),
    ];
    for instruction in instructions {
        assert_eq!(instruction.to_debug_text(), format!("{:?}", instruction));
    }
}

#[test]
fn validation_errors_have_messages() {
    let error = ValidModule::from_module(module(vec![symbols(&[("a", 0)])])).err().unwrap();
    assert_eq!(error.message(), "symbol entry #0 is invalid: function template index #0 is out of bounds");
    let error = ValidModule::from_module(module(vec![
        Section::FunctionImport(vec![import()]),
        Section::FunctionInstantiation(vec![Instantiation::with_template(index::FunctionTemplate::new(2))]),
    ]))
    .err()
    .unwrap();
    assert_eq!(
        error.message(),
        "function instantiation #0 has an invalid template: function template index #2 is out of boundsmaximum valid index is #0"
    );
    let block = Block::from_types(Vec::new(), 0, vec![Instruction::Unreachable, Instruction::Unreachable]);
    let body = Body::new(Vec::new(), block, Vec::new());
    let error = ValidModule::from_module(module(vec![Section::Code(vec![body])])).err().unwrap();
    assert_eq!(
        error.message(),
        "function body #0: invalid instruction \"Unreachable\" at index 1 in code block block #0: no instructions should come after the first terminator instruction"
    );
    let error = ValidModule::from_module(module(vec![symbols(&[("a", 0), ("a", 1)])])).err().unwrap();
    assert_eq!(
        error.message(),
        "attempt to assign index function template #1 the symbol \"a\", but symbol is already assigned to function template #0"
    );
    let error = ValidModule::from_module(module(vec![
        Section::EntryPoint(index::FunctionInstantiation::new(0)),
        Section::EntryPoint(index::FunctionInstantiation::new(0)),
    ]))
    .err()
    .unwrap();
    assert_eq!(error.message(), "too many entry point functions specified");
}

#[test]
fn unchecked_modules_have_no_symbols() {
    let valid = ValidModule::from_contents_unchecked(il4il::validation::ModuleContents::new());
    assert!(valid.symbol_lookup().entries().is_empty());
    assert!(valid.into_contents().function_bodies.is_empty());
}

fn sample_sections_for_contents() -> Vec<Section> {
    let u8_type = Type::from_sized(SizedInteger::new(IntegerSign::unsigned(), IntegerSize::i8()));
    let mut symbols = Assignment::new(Kind::Export, TargetKind::FunctionTemplate);
    symbols.symbols.push((id("g"), 1));
    vec![
        Section::Type(vec![u8_type]),
        Section::FunctionDefinition(vec![Definition::new(index::FunctionSignature::new(0), index::FunctionBody::new(0))]),
        Section::FunctionImport(vec![import()]),
        Section::Symbol(vec![symbols]),
        Section::FunctionSignature(vec![Signature::from_types(vec![Reference::Inline(u8_type)], 1)]),
        Section::EntryPoint(index::FunctionInstantiation::new(0)),
        Section::FunctionInstantiation(vec![Instantiation::with_template(index::FunctionTemplate::new(1))]),
        Section::EntryPoint(index::FunctionInstantiation::new(1)),
    ]
}

#[test]
fn contents_are_gathered_back_from_the_sections_they_are_converted_into() {
    let original = ModuleContents::from_sections(sample_sections_for_contents());
    let sections = ModuleContents::from_sections(sample_sections_for_contents()).into_sections();
    assert_eq!(sections.len(), 11);
    assert_eq!(sections[9], Section::EntryPoint(index::FunctionInstantiation::new(0)));
    assert_eq!(sections[10], Section::EntryPoint(index::FunctionInstantiation::new(1)));
    let back = ModuleContents::from_sections(sections);
    assert_eq!(back.metadata, original.metadata);
    assert_eq!(back.module_imports, original.module_imports);
    assert_eq!(back.symbols, original.symbols);
    assert_eq!(back.types, original.types);
    assert_eq!(back.function_signatures, original.function_signatures);
    assert_eq!(back.function_instantiations, original.function_instantiations);
    assert_eq!(back.function_imports, original.function_imports);
    assert_eq!(back.function_definitions, original.function_definitions);
    assert_eq!(back.function_bodies, original.function_bodies);
    assert_eq!(back.entry_point, original.entry_point);
    assert_eq!(back.function_templates.iter_templates(), &vec![Template::Import(0), Template::Definition(0)]);
    assert_eq!(original.function_templates.iter_templates(), &vec![Template::Definition(0), Template::Import(0)]);
}

#[test]
fn contents_become_a_module_of_the_current_format() {
    let module = ModuleContents::from_sections(sample_sections_for_contents()).into_module();
    assert_eq!(module.sections().len(), 11);
    assert_eq!(module.format_version(), Module::new().format_version());
}
