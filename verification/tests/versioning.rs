use il4il::versioning::Format;
use il4il::versioning::SupportedFormat;

#[test]
fn old_formats_are_not_supported() {
    assert!(SupportedFormat::new(Format::new(0, 0)).is_err());
    let error = SupportedFormat::new(Format::new(0, 0)).unwrap_err();
    assert_eq!(error.version(), Format::new(0, 0));
    assert_eq!(error.message(), "format version 0.0 is not supported, minimum supported is 0.1");
}

#[test]
fn current_format_is_supported() {
    let current = SupportedFormat::current().format();
    assert_eq!(current, Format::new(0, 1));
    assert_eq!(SupportedFormat::new(current).unwrap().format(), current);
    assert!(SupportedFormat::new(Format::new(3, 7)).is_err());
    assert!(SupportedFormat::new(Format::new(0, 2)).is_err());
    assert_eq!(Format::new(3, 7).to_text(), "3.7");
    assert!(Format::new(0, 1).is_at_most(&Format::new(1, 0)));
    assert!(!Format::new(1, 1).is_at_most(&Format::new(1, 0)));
}
