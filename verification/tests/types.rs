use il4il::integer::VarU28;
use il4il::type_system::Float;
use il4il::type_system::IntegerSign;
use il4il::type_system::IntegerSize;
use il4il::type_system::SizedInteger;

#[test]
fn integer_sizes_have_their_bit_widths() {
    assert_eq!(IntegerSize::min().bit_width(), 2);
    assert_eq!(IntegerSize::i8().bit_width(), 8);
    assert_eq!(IntegerSize::i16().bit_width(), 16);
    assert_eq!(IntegerSize::i32().bit_width(), 32);
    assert_eq!(IntegerSize::i64().bit_width(), 64);
    assert_eq!(IntegerSize::i128().bit_width(), 128);
    assert_eq!(IntegerSize::i256().bit_width(), 256);
    assert!(IntegerSize::new(1).is_none());
    assert!(IntegerSize::new(0).is_none());
}

#[test]
fn sized_integers() {
    assert_eq!(SizedInteger::boolean().bit_width(), 1);
    assert_eq!(SizedInteger::new(IntegerSign::unsigned(), IntegerSize::new(24).unwrap()).bit_width(), 24);
    assert!(SizedInteger::boolean().is_boolean());
    assert!(!SizedInteger::new(IntegerSign::unsigned(), IntegerSize::new(12).unwrap()).is_boolean());
    assert_eq!(SizedInteger::boolean().sign(), None);
    assert_eq!(
        SizedInteger::new(IntegerSign::signed(), IntegerSize::new(40).unwrap()).sign(),
        Some(IntegerSign::signed())
    );
}

#[test]
fn floats_have_their_widths() {
    assert_eq!((Float::half().bit_width(), Float::half().byte_width()), (16, 2));
    assert_eq!((Float::single().bit_width(), Float::single().byte_width()), (32, 4));
    assert_eq!((Float::double().bit_width(), Float::double().byte_width()), (64, 8));
    assert_eq!((Float::quadruple().bit_width(), Float::quadruple().byte_width()), (128, 16));
    assert_eq!((Float::octuple().bit_width(), Float::octuple().byte_width()), (256, 32));
}

#[test]
fn integer_sizes_from_bit_widths_reach_256() {
    assert_eq!(IntegerSize::from_u28(VarU28::from_u16(256)), Ok(IntegerSize::i256()));
    assert_eq!(IntegerSize::from_u28(VarU28::from_u16(255)).unwrap().bit_width(), 255);
    assert_eq!(IntegerSize::from_u28(VarU28::from_u16(2)).unwrap().bit_width(), 2);
    assert!(IntegerSize::from_u28(VarU28::from_u16(1)).is_err());
    assert!(IntegerSize::from_u28(VarU28::from_u16(257)).is_err());
}
