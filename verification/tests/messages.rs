use il4il::binary::parser::Error;
use il4il::binary::parser::ErrorKind;
use il4il::binary::parser::FlagsKind;
use il4il::binary::parser::InvalidFlagsError;
use il4il::binary::parser::SectionLengthError;
use il4il::binary::parser::UnsupportedTypeError;
use il4il::instruction::value::ConstantInteger;
use il4il::instruction::Value;
use il4il::integer::EncodingError;
use il4il::integer::VarI28;
use il4il::integer::VarU28;
use il4il::module::section::SectionKind;
use il4il::module::Module;
use il4il::type_system::Float;
use il4il::type_system::Type;
use il4il::validation::error::InvalidValueError;
use il4il::validation::type_comparer::are_equal;
use il4il::versioning::Format;
use il4il::versioning::SupportedFormat;

#[test]
fn parser_errors_give_their_offset_in_hexadecimal() {
    let error = Module::read_from([1u8, 2, 3, 4].as_slice()).unwrap_err();
    assert_eq!(error.message(), "error occurred at file offset 0x0: not a valid IL4IL module file\n");
    let error = Error { kind: ErrorKind::EndOfInput, file_offset: 0x1F };
    assert_eq!(error.message(), "error occurred at file offset 0x1F: failed to fill whole buffer\n");
}

#[test]
fn parser_error_kinds_have_messages() {
    assert_eq!(
        ErrorKind::UnsupportedFormat(Format::new(0, 0)).message(),
        "format version 0.0 is not supported, minimum supported is 0.1"
    );
    assert_eq!(ErrorKind::UnsupportedIntegerLength(5).message(), "integers of byte length 5 are not supported by IL4IL");
    assert_eq!(
        ErrorKind::InvalidFlags(InvalidFlagsError { name: FlagsKind::SectionKind, value: 0xAB }).message(),
        "0xAB is not a valid section kind"
    );
    assert_eq!(
        ErrorKind::SectionLengthMismatch(SectionLengthError { section: SectionKind::FunctionSignature, expected: 4, actual: 3 })
            .message(),
        "expected FunctionSignature section to have a length of 4 bytes, but 3 bytes were parsed"
    );
    assert_eq!(ErrorKind::InvalidTypeTag(-42).message(), "-42 is not a valid type tag");
    assert_eq!(
        ErrorKind::UnsupportedTypeKind(UnsupportedTypeError { type_index: 3 }).message(),
        "unsupported type #3, type index is not allowed here"
    );
    assert_eq!(ErrorKind::InvalidOpcode(9).message(), "9 is not a valid opcode");
    assert_eq!(ErrorKind::InvalidIntegerBitWidth(300).message(), "300 is not a supported integer bit width");
}

#[test]
fn section_kind_names_match_debug_formatting() {
    for kind in [SectionKind::Metadata, SectionKind::ModuleImport, SectionKind::Code, SectionKind::EntryPoint] {
        let error = SectionLengthError { section: kind, expected: 0, actual: 0 };
        let message = ErrorKind::SectionLengthMismatch(error).message();
        assert!(message.starts_with(&format!("expected {:?} section", kind)));
    }
}

#[test]
fn integers_have_decimal_texts() {
    assert_eq!(VarU28::from_u16(1234).to_text(), "1234");
    assert_eq!(VarI28::from_i16(-512).to_text(), "-512");
    assert_eq!(VarI28::zero().to_text(), "0");
    assert_eq!(EncodingError.message(), "integer too large to be encoded");
}

#[test]
fn type_mismatches_name_both_types() {
    let error = are_equal(&Type::Float(Float::single()), &Type::Float(Float::double())).unwrap_err();
    assert_eq!(error.message(), format!("expected {}, but got {}", Type::Float(Float::single()).to_text(), Type::Float(Float::double()).to_text()));
    assert!(are_equal(&Type::Float(Float::half()), &Type::Float(Float::half())).is_ok());
}

#[test]
fn invalid_values_are_written_as_debug_formatting_does() {
    let value = Value::from_integer(ConstantInteger::I16([7, 0]));
    assert_eq!(InvalidValueError { value }.message(), format!("{:?} is invalid", value));
}

#[test]
fn supported_formats_have_texts() {
    assert_eq!(SupportedFormat::current().to_text(), "0.1");
}
