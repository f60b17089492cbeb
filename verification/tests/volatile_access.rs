use firmament::error::McuError;
use firmament::volatile_access::{Addr, Value, VolatileAccess, Width};

#[test]
fn width_size_gives_bits() {
    assert_eq!(Width::U8.size(), 8);
    assert_eq!(Width::U16.size(), 16);
    assert_eq!(Width::U32.size(), 32);
}

#[test]
fn value_size_and_width_follow_the_tag() {
    assert_eq!(Value::U8(0xAB).size(), 8);
    assert_eq!(Value::U16(0xABCD).size(), 16);
    assert_eq!(Value::U32(1).size(), 32);
    assert_eq!(Value::U8(0).width(), Width::U8);
    assert_eq!(Value::U16(0).width(), Width::U16);
    assert_eq!(Value::U32(0).width(), Width::U32);
    for v in [Value::U8(7), Value::U16(7), Value::U32(7)] {
        assert_eq!(v.size(), v.width().size());
    }
}

#[test]
fn value_from_integers_tags_by_type() {
    assert_eq!(Value::from(0x12u8), Value::U8(0x12));
    assert_eq!(Value::from(0x1234u16), Value::U16(0x1234));
    assert_eq!(Value::from(0x1234_5678u32), Value::U32(0x1234_5678));
}

#[test]
fn try_from_value_accepts_matching_width() {
    assert_eq!(u8::try_from(Value::U8(0xFE)).ok(), Some(0xFE));
    assert_eq!(u16::try_from(Value::U16(0xBEEF)).ok(), Some(0xBEEF));
}

#[test]
fn try_from_value_reports_width_mismatch() {
    let err = u8::try_from(Value::U16(1)).unwrap_err();
    assert!(matches!(err, McuError::WidthMismatch { requested: 8, actual: 16 }));
    let err = u16::try_from(Value::U32(1)).unwrap_err();
    assert!(matches!(err, McuError::WidthMismatch { requested: 16, actual: 32 }));
    let err = u16::try_from(Value::U8(1)).unwrap_err();
    assert!(matches!(err, McuError::WidthMismatch { requested: 16, actual: 8 }));
}

#[test]
fn u32_from_value_zero_extends() {
    assert_eq!(u32::from(Value::U8(0xFF)), 0xFF);
    assert_eq!(u32::from(Value::U16(0xFFFF)), 0xFFFF);
    assert_eq!(u32::from(Value::U32(0xDEAD_BEEF)), 0xDEAD_BEEF);
}

#[test]
fn volatile_access_round_trips() {
    assert_eq!(u8::from_value(0x5Au8.to_value()), Some(0x5A));
    assert_eq!(u16::from_value(0x5A5Au16.to_value()), Some(0x5A5A));
    assert_eq!(u32::from_value(0x5A5A_5A5Au32.to_value()), Some(0x5A5A_5A5A));
    assert_eq!(0x5Au8.to_value().width(), <u8 as VolatileAccess>::width());
    assert_eq!(7u16.to_value().width(), <u16 as VolatileAccess>::width());
    assert_eq!(7u32.to_value().width(), <u32 as VolatileAccess>::width());
}

#[test]
fn volatile_access_widths() {
    assert_eq!(<u8 as VolatileAccess>::width(), Width::U8);
    assert_eq!(<u16 as VolatileAccess>::width(), Width::U16);
    assert_eq!(<u32 as VolatileAccess>::width(), Width::U32);
    assert_eq!(0x12u8.to_value(), Value::U8(0x12));
    assert_eq!(0x1234u16.to_value(), Value::U16(0x1234));
    assert_eq!(0x1234u32.to_value(), Value::U32(0x1234));
}

#[test]
fn volatile_access_rejects_other_widths() {
    assert_eq!(u8::from_value(Value::U16(1)), None);
    assert_eq!(u8::from_value(Value::U32(1)), None);
    assert_eq!(u16::from_value(Value::U8(1)), None);
    assert_eq!(u32::from_value(Value::U16(1)), None);
}

#[test]
fn addr_keeps_its_raw_value() {
    assert_eq!(u32::from(Addr::new(0x4000_0014)), 0x4000_0014);
    assert_eq!(Addr::from(0x4000_0010u32), Addr::new(0x4000_0010));
    assert_ne!(Addr::new(1), Addr::new(2));
    assert_eq!(u32::from(Addr::from(u32::MAX)), u32::MAX);
}

#[test]
fn display_texts() {
    assert_eq!(Width::U8.to_string(), "8-bit");
    assert_eq!(Width::U16.to_string(), "16-bit");
    assert_eq!(Width::U32.to_string(), "32-bit");
    assert_eq!(Value::U8(0x0A).to_string(), "0x0A");
    assert_eq!(Value::U16(0xAB).to_string(), "0x00AB");
    assert_eq!(Value::U32(0xABCD).to_string(), "0x0000ABCD");
    assert_eq!(Addr::new(0x4000_0014).to_string(), "0x40000014");
    assert_eq!(Addr::new(0).to_string(), "0x00000000");
}
