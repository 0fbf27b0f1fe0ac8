use il4il::binary::parser::ReadFrom;
use il4il::binary::parser::Source;
use il4il::binary::writer::Destination;
use il4il::binary::writer::WriteTo;
use il4il::binary::writer::write_length;
use il4il::function::Body;
use il4il::function::Definition;
use il4il::function::Import;
use il4il::function::Instantiation;
use il4il::function::Signature;
use il4il::identifier::Identifier;
use il4il::index;
use il4il::instruction::value::ConstantFloat;
use il4il::instruction::value::ConstantInteger;
use il4il::instruction::Block;
use il4il::instruction::Instruction;
use il4il::instruction::Value;
use il4il::module::section::Metadata;
use il4il::module::section::Section;
use il4il::module::Module;
use il4il::module::ModuleName;
use il4il::symbol::Assignment;
use il4il::symbol::Kind;
use il4il::symbol::TargetKind;
use il4il::type_system::Float;
use il4il::type_system::Integer;
use il4il::type_system::IntegerSign;
use il4il::type_system::IntegerSize;
use il4il::type_system::Reference;
use il4il::type_system::SizedInteger;
use il4il::type_system::Type;

fn id(s: &str) -> Identifier {
    Identifier::from_boxed_str(s).unwrap()
}

fn u32_type() -> Type {
    Type::from_sized(SizedInteger::new(IntegerSign::unsigned(), IntegerSize::i32()))
}

fn sample_sections() -> Vec<Section> {
    let block = Block::from_types(
        vec![Reference::Index(index::Type::new(0))],
        1,
        vec![Instruction::Return(vec![
            Value::from_integer(ConstantInteger::Byte(7)),
            Value::from_integer(ConstantInteger::I16([1, 2])),
            Value::from_float(ConstantFloat::Single([0, 0, 128, 63])),
        ])],
    );
    let other = Block::from_types(Vec::new(), 0, vec![Instruction::Unreachable]);
    let mut symbols = Assignment::new(Kind::Export, TargetKind::FunctionTemplate);
    symbols.symbols.push((id("main"), 0));
    vec![
        Section::Metadata(vec![Metadata::Name(ModuleName::from_name(id("Sample")))]),
        Section::ModuleImport(vec![ModuleName::from_name(id("dependency"))]),
        Section::Type(vec![
            u32_type(),
            Type::Float(Float::double()),
            Type::Integer(Integer::Address(IntegerSign::signed())),
            Type::from_sized(SizedInteger::boolean()),
            Type::from_sized(SizedInteger::new(IntegerSign::signed(), IntegerSize::new(24).unwrap())),
            Type::from_sized(SizedInteger::new(IntegerSign::signed(), IntegerSize::i64())),
            Type::from_sized(SizedInteger::new(IntegerSign::signed(), IntegerSize::i128())),
            Type::from_sized(SizedInteger::new(IntegerSign::signed(), IntegerSize::i256())),
        ]),
        Section::FunctionSignature(vec![Signature::from_types(
            vec![
                Reference::Index(index::Type::new(0)),
                Reference::Index(index::Type::new(64)),
                Reference::Index(index::Type::new(10000)),
                Reference::Inline(Type::Float(Float::single())),
            ],
            1,
        )]),
        Section::Code(vec![Body::new(vec![Reference::Index(index::Type::new(0))], block, vec![other])]),
        Section::FunctionDefinition(vec![Definition::new(index::FunctionSignature::new(0), index::FunctionBody::new(0))]),
        Section::FunctionImport(vec![Import::new(index::Module::new(0), id("external"), index::FunctionSignature::new(0))]),
        Section::FunctionInstantiation(vec![Instantiation::with_template(index::FunctionTemplate::new(0))]),
        Section::Symbol(vec![symbols]),
        Section::EntryPoint(index::FunctionInstantiation::new(0)),
    ]
}

fn write(module: &Module) -> Vec<u8> {
    let mut buffer = Destination::new();
    module.write_to(&mut buffer).unwrap();
    buffer.into_bytes()
}

#[test]
fn module_is_read_back_from_its_bytes() {
    let mut module = Module::new();
    module.set_sections(sample_sections());
    let bytes = write(&module);
    let parsed = Module::read_from(bytes.as_slice()).unwrap();
    assert_eq!(parsed.format_version(), module.format_version());
    assert_eq!(parsed.sections(), &sample_sections());
    assert_eq!(write(&parsed), bytes);
}

#[test]
fn truncated_module_is_an_error_at_its_end() {
    let mut module = Module::new();
    module.set_sections(sample_sections());
    let bytes = write(&module);
    for length in [5usize, 8, 12, bytes.len() - 1] {
        assert!(Module::read_from(&bytes[..length]).is_err());
    }
}

#[test]
fn sections_mut_replaces_sections() {
    let mut module = Module::new();
    *module.sections_mut() = sample_sections();
    assert_eq!(module.sections().len(), 10);
    module.sections_mut().clear();
    assert!(module.sections().is_empty());
}

fn bytes_of<T: WriteTo>(value: &T) -> Vec<u8> {
    let mut out = Destination::new();
    value.write_to(&mut out).unwrap();
    out.into_bytes()
}

fn signed_type(size: IntegerSize) -> Type {
    Type::from_sized(SizedInteger::new(IntegerSign::signed(), size))
}

#[test]
fn signed_integer_types_are_written_with_their_own_tags() {
    assert_eq!(bytes_of(&signed_type(IntegerSize::i16())), vec![0xF6]);
    assert_eq!(bytes_of(&signed_type(IntegerSize::i64())), vec![0xEE]);
    assert_eq!(bytes_of(&signed_type(IntegerSize::i128())), vec![0xEA]);
    assert_eq!(bytes_of(&signed_type(IntegerSize::i256())), vec![0xE6]);
}

#[test]
fn every_sized_integer_type_is_read_back() {
    let mut sizes = vec![IntegerSize::i8(), IntegerSize::i16(), IntegerSize::i32(), IntegerSize::i64()];
    sizes.push(IntegerSize::i128());
    sizes.push(IntegerSize::i256());
    sizes.push(IntegerSize::new(2).unwrap());
    sizes.push(IntegerSize::new(24).unwrap());
    sizes.push(IntegerSize::new(255).unwrap());
    let mut types = vec![Type::from_sized(SizedInteger::boolean())];
    for size in sizes {
        types.push(Type::from_sized(SizedInteger::new(IntegerSign::signed(), size)));
        types.push(Type::from_sized(SizedInteger::new(IntegerSign::unsigned(), size)));
    }
    for ty in types {
        let bytes = bytes_of(&Reference::Inline(ty.clone()));
        let mut source = Source::new(bytes.as_slice());
        assert_eq!(Reference::read_from(&mut source), Ok(Reference::Inline(ty)));
        assert_eq!(source.file_offset(), bytes.len());
    }
}

#[test]
fn type_indices_are_written_as_non_negative_signed_integers() {
    assert_eq!(bytes_of(&Reference::Index(index::Type::new(5))), vec![0x0A]);
    assert_eq!(bytes_of(&Reference::Index(index::Type::new(64))), vec![0x01, 0x01]);
    for i in [0usize, 63, 64, 127, 128, 8191, 8192, 16383, 16384, 0x07FF_FFFF] {
        let reference = Reference::Index(index::Type::new(i));
        let bytes = bytes_of(&reference);
        let mut source = Source::new(bytes.as_slice());
        assert_eq!(Reference::read_from(&mut source), Ok(reference));
        assert_eq!(source.file_offset(), bytes.len());
    }
}

#[test]
fn type_index_beyond_28_bits_is_not_written() {
    let mut out = Destination::new();
    assert!(Reference::Index(index::Type::new(0x0800_0000)).write_to(&mut out).is_err());
}

#[test]
fn integer_type_of_256_bits_is_read_from_its_width() {
    let bytes = [0xE0u8, 0x01, 0x04];
    let mut source = Source::new(bytes.as_slice());
    assert_eq!(
        Reference::read_from(&mut source),
        Ok(Reference::Inline(Type::from_sized(SizedInteger::new(IntegerSign::unsigned(), IntegerSize::i256()))))
    );
}

#[test]
fn length_beyond_28_bits_writes_nothing() {
    let mut out = Destination::new();
    write_length(300, &mut out).unwrap();
    assert!(write_length(0x1000_0000, &mut out).is_err());
    assert_eq!(out.into_bytes(), vec![0xB1, 0x04]);
}
