use il4il::binary::parser::ErrorKind;
use il4il::binary::writer::Destination;
use il4il::module::Module;

#[test]
fn parsed_empty_module_is_empty() {
    let builder = Module::new();
    let mut buffer = Destination::new();
    builder.write_to(&mut buffer).unwrap();

    let parsed = Module::read_from(buffer.as_slice()).unwrap();
    assert!(parsed.into_sections().is_empty());
}

#[test]
fn empty_module_bytes() {
    let mut buffer = Destination::new();
    Module::new().write_to(&mut buffer).unwrap();
    assert_eq!(buffer.into_bytes(), vec![b'I', b'L', b'4', b'I', b'L', 0, 0, 1, 0]);
}

#[test]
fn invalid_magic_is_reported_at_the_start() {
    let error = Module::read_from([1u8, 2, 3, 4].as_slice()).unwrap_err();
    assert_eq!(error.file_offset(), 0);
    assert!(matches!(error.kind(), ErrorKind::InvalidMagic(_)));
}
