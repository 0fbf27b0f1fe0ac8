use il4il::integer::VarI28;
use il4il::integer::VarU28;

#[test]
fn unsigned_bounds() {
    assert_eq!(VarU28::min().get(), 0);
    assert_eq!(VarU28::max().get() >> 28, 0);
    assert!(VarU28::min().get() < VarU28::max_1().get());
    assert!(VarU28::max_2().get() < VarU28::max_3().get());
    assert!(VarU28::max_3().get() < VarU28::max_4().get());
}

#[test]
fn unsigned_conversions() {
    assert_eq!(VarU28::from_u16(99).get(), 99);
    assert_eq!(VarU28::from_u32(99), Some(VarU28::from_u16(99)));
    assert_eq!(VarU28::from_u32(0x1000_0000), None);
    assert_eq!(VarU28::from_u32(u32::MAX), None);
    assert!(VarU28::from_usize(0x1000_0000).is_err());
    assert_eq!(VarU28::from_usize(5).unwrap().to_usize(), 5);
}

#[test]
fn unsigned_byte_lengths() {
    assert_eq!(VarU28::from_u8(1).byte_length(), 1);
    assert_eq!(VarU28::max_1().byte_length(), 1);
    assert_eq!(VarU28::from_u8(u8::MAX).byte_length(), 2);
    assert_eq!(VarU28::from_u16(u16::MAX).byte_length(), 3);
    assert_eq!(VarU28::max().byte_length(), 4);
}

#[test]
fn unsigned_reading() {
    assert!(matches!(VarU28::read_from([0b0110_1100u8].as_slice()), Ok(Ok((n, 1))) if n.get() == 0b0011_0110));
    assert!(matches!(VarU28::read_from([1u8].as_slice()), Err(_)));
    assert!(matches!(VarU28::read_from([0xFFu8].as_slice()), Ok(Err(e)) if e.length() == 9));
    assert!(matches!(VarU28::read_from([0x0Fu8].as_slice()), Ok(Err(e)) if e.length() == 5));
}

#[test]
fn unsigned_writing() {
    assert_eq!(VarU28::from_u8(0b0101_0110).into_vec(), &[0b1010_1100u8]);
    assert_eq!(VarU28::from_u8(6).into_vec(), &[0b0000_1100u8]);
    assert_eq!(VarU28::from_u8(128).into_vec(), &[1u8, 2]);
    assert_eq!(VarU28::from_u8(255).into_vec(), &[0b11111101u8, 0b11]);
    assert_eq!(VarU28::max_1().into_vec(), &[0b1111_1110u8]);
    assert_eq!(VarU28::max_2().into_vec(), &[0b1111_1101u8, 0xFF]);
    assert_eq!(VarU28::max_3().into_vec(), &[0b1111_1011u8, 0xFF, 0xFF]);
    assert_eq!(VarU28::max_4().into_vec(), &[0xF7u8, 0xFF, 0xFF, 0xFF]);
}

#[test]
fn written_u28_can_be_parsed() {
    for value in [0u32, 1, 0x7F, 0x80, 0x3FFF, 0x4000, 0x1F_FFFF, 0x20_0000, 0x0FFF_FFFF, 0x0123_4567] {
        let value = VarU28::from_u32(value).unwrap();
        let mut bytes = value.into_vec();
        let length = bytes.len();
        bytes.extend_from_slice(&[0xAA, 0xBB]);
        assert_eq!(VarU28::read_from(bytes.as_slice()), Ok(Ok((value, length))));
    }
}

#[test]
fn u28_bitwise_operations_match() {
    let left = VarU28::from_u32(0x0F0F_0F0F).unwrap();
    let right = VarU28::from_u32(0x00FF_00FF).unwrap();
    assert_eq!(left.bitor(right).get(), 0x0FFF_0FFF);
    assert_eq!(left.bitand(right).get(), 0x000F_000F);
}

#[test]
fn signed_conversions() {
    assert_eq!(VarI28::from_u8(21).get(), 21);
    assert_eq!(VarI28::from_u8(u8::MIN), VarI28::zero());
    assert_eq!(VarI28::from_u8(u8::MAX).get(), u8::MAX.into());
    assert_eq!(VarI28::from_u16(42).get(), 42);
    assert_eq!(VarI28::from_u16(u16::MAX).get(), u16::MAX.into());
    assert_eq!(VarI28::from_i8(-123).get(), -123);
    assert_eq!(VarI28::from_i8(i8::MIN).get(), i8::MIN.into());
    assert_eq!(VarI28::from_i16(-456).get(), -456);
    assert_eq!(VarI28::from_i16(i16::MAX).get(), i16::MAX.into());
    assert_eq!(VarI28::from_i32(0x0800_0000), None);
    assert_eq!(VarI28::from_i32(-0x0800_0000).map(VarI28::get), Some(-0x0800_0000));
    assert_eq!(VarI28::zero().get(), 0);
}

#[test]
fn signed_bounds() {
    assert_eq!(VarI28::max_1().get(), 63);
    assert_eq!(VarI28::min_1().get(), -64);
    assert_eq!(VarI28::max_2().get(), 8191);
    assert_eq!(VarI28::min_2().get(), -8192);
    assert_eq!(VarI28::max_3().get(), 1048575);
    assert_eq!(VarI28::min_3().get(), -1048576);
    assert_eq!(VarI28::max_4().get(), 134217727);
    assert_eq!(VarI28::min_4().get(), -134217728);
}

#[test]
fn signed_reading() {
    assert_eq!(VarI28::read_from([0].as_slice()), Ok(Ok((VarI28::zero(), 1))));
    assert_eq!(VarI28::read_from([0b1100].as_slice()).unwrap().unwrap().0.get(), 6);
    assert_eq!(VarI28::read_from([0b1111_1100].as_slice()).unwrap().unwrap().0.get(), -2);
    assert_eq!(VarI28::read_from([0b0000_0001, 4].as_slice()).unwrap().unwrap().0.get(), 256);
    assert_eq!(VarI28::read_from([0b0000_0001, 0b1111_1000].as_slice()).unwrap().unwrap().0.get(), -512);
    assert_eq!(VarI28::read_from([0b0000_0011, 0, 8].as_slice()).unwrap().unwrap().0.get(), 65536);
    assert_eq!(VarI28::read_from([0b0001_0111, 0, 0, 8].as_slice()).unwrap().unwrap().0.get(), 8388609);
    assert!(VarI28::read_from([0b0000_0011, 0].as_slice()).is_err());
    assert!(matches!(VarI28::read_from([0x0Fu8].as_slice()), Ok(Err(e)) if e.length() == 5));
    assert!(matches!(VarI28::read_from([0xFFu8].as_slice()), Ok(Err(e)) if e.length() == 9));
}

#[test]
fn signed_writing() {
    assert_eq!(VarI28::zero().into_vec(), &[0]);
    assert_eq!(VarI28::from_i8(5).into_vec(), &[0b0000_1010]);
    assert_eq!(VarI28::from_i8(-5).into_vec(), &[0b1111_0110]);
    assert_eq!(VarI28::from_i8(64).into_vec(), &[1, 1]);
    assert_eq!(VarI28::from_i8(-64).into_vec(), &[0b1000_0000]);
    assert_eq!(VarI28::max_1().into_vec(), &[0b0111_1110]);
    assert_eq!(VarI28::min_1().into_vec(), &[0x80]);
    assert_eq!(VarI28::max_2().into_vec(), &[0b1111_1101, 0x7F]);
    assert_eq!(VarI28::min_2().into_vec(), &[0b0000_0001, 0x80]);
    assert_eq!(VarI28::max_3().into_vec(), &[0b1111_1011, 0xFF, 0x7F]);
    assert_eq!(VarI28::min_3().into_vec(), &[0b0000_0011, 0, 0x80]);
    assert_eq!(VarI28::max_4().into_vec(), &[0b1111_0111, 0xFF, 0xFF, 0x7F]);
    assert_eq!(VarI28::min_4().into_vec(), &[0b0000_0111, 0, 0, 0x80]);
}

#[test]
fn written_i28_can_be_parsed() {
    for value in [0i32, 1, -1, 63, -64, 64, -65, 8191, -8192, 8192, 1048575, -1048576, 134217727, -134217728] {
        let value = VarI28::from_i32(value).unwrap();
        let bytes = value.into_vec();
        assert_eq!(VarI28::read_from(bytes.as_slice()), Ok(Ok((value, bytes.len()))));
    }
}

#[test]
fn signed_to_unsigned() {
    assert_eq!(VarI28::from_i8(5).to_var_u28(), Some(VarU28::from_u8(5)));
    assert_eq!(VarI28::from_i8(-5).to_var_u28(), None);
}
