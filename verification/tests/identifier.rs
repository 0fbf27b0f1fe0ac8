use il4il::identifier::Id;
use il4il::identifier::Identifier;
use il4il::identifier::InvalidError;
use il4il::identifier::ParseError;

#[test]
fn identifiers_are_checked() {
    assert_eq!(Id::new("very_very_long_function_name").map(|id| id.as_str()), Ok("very_very_long_function_name"));
    assert!(matches!(Id::new(""), Err(InvalidError::Empty)));
    assert!(matches!(Id::new("\0"), Err(InvalidError::ContainsNull)));
    assert!(matches!(Id::new("a\0b"), Err(InvalidError::ContainsNull)));
    assert_eq!(InvalidError::Empty.message(), "identifiers cannot be empty");
    assert_eq!(InvalidError::ContainsNull.message(), "identifiers cannot contain null bytes");
}

#[test]
fn identifiers_are_decoded_from_utf8() {
    assert!(Id::from_utf8(&[]).is_err());
    assert!(Id::from_utf8(&[0u8]).is_err());
    assert!(matches!(Id::from_utf8(&[0xFFu8]), Err(ParseError::InvalidSequence)));
    assert!(matches!(Id::from_utf8(&[0u8]), Err(ParseError::InvalidIdentifier(InvalidError::ContainsNull))));
    assert_eq!(Id::from_utf8("é".as_bytes()).map(|id| id.as_str()), Ok("é"));
    assert_eq!(Identifier::from_utf8(b"abc").unwrap().as_str(), "abc");
}

#[test]
fn appended_identifiers_are_valid() {
    let mut id = Identifier::from_boxed_str("MyName").unwrap();
    let other = Identifier::from_boxed_str("IsValid").unwrap();
    id.push_id(other.as_id());
    assert_eq!(id.as_str(), "MyNameIsValid");
    assert!(Id::new(id.as_str()).is_ok());
}

#[test]
fn identifiers_keep_their_contents() {
    let id = Identifier::from_string("name".to_string()).unwrap();
    assert_eq!(id.as_bytes(), b"name");
    assert_eq!(id.clone().into_string(), "name");
    assert!(Identifier::from_string(String::new()).is_err());
}

#[test]
fn known_valid_identifiers_are_taken_as_they_are() {
    assert_eq!(Identifier::from_string_unchecked("known".to_string()).as_str(), "known");
    assert_eq!(Id::from_str_unchecked("x").as_str(), "x");
    assert_eq!(Id::new("boxed").unwrap().into_boxed_str(), "boxed");
}
