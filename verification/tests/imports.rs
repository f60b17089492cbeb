use firmament::mcu::runtime::isr_export;
use firmament::text::{format_decimal, format_hex};
use firmament::error::RuntimeError;
use firmament::mcu::imports::{log_message, write_value};
use firmament::volatile_access::{Value, Width};

fn invalid_argument(r: Result<Value, RuntimeError>) -> String {
    match r {
        Err(RuntimeError::InvalidArgument(m)) => m,
        other => panic!("unexpected {other:?}"),
    }
}

#[test]
fn write_value_narrows_values_that_fit() {
    assert_eq!(write_value(Width::U8, 0xFF).ok(), Some(Value::U8(0xFF)));
    assert_eq!(write_value(Width::U8, 0).ok(), Some(Value::U8(0)));
    assert_eq!(write_value(Width::U16, 0xFFFF).ok(), Some(Value::U16(0xFFFF)));
    assert_eq!(write_value(Width::U32, u32::MAX).ok(), Some(Value::U32(u32::MAX)));
}

#[test]
fn write_value_rejects_8_bit_overflow() {
    let m = invalid_argument(write_value(Width::U8, 0x100));
    assert_eq!(m, "value 0x100 exceeds 8-bit range (max 0xFF)");
}

#[test]
fn write_value_rejects_16_bit_overflow() {
    let m = invalid_argument(write_value(Width::U16, 0x1_0000));
    assert_eq!(m, "value 0x10000 exceeds 16-bit range (max 0xFFFF)");
    let m = invalid_argument(write_value(Width::U16, u32::MAX));
    assert_eq!(m, "value 0xFFFFFFFF exceeds 16-bit range (max 0xFFFF)");
}

#[test]
fn log_message_reads_guest_memory() {
    let memory = b"xxfirmware bootedyy";
    assert_eq!(log_message(memory, 2, 15).unwrap(), "firmware booted");
    assert_eq!(log_message(memory, 0, 0).unwrap(), "");
    assert_eq!(log_message(memory, 19, 0).unwrap(), "");
}

#[test]
fn log_message_rejects_out_of_bounds() {
    let memory = [0u8; 16];
    match log_message(&memory, 0x10, 4) {
        Err(RuntimeError::InvalidArgument(m)) => {
            assert_eq!(m, "debug_log: pointer 0x10 + len 4 out of bounds")
        },
        other => panic!("unexpected {other:?}"),
    }
    assert!(log_message(&memory, 12, 5).is_err());
}

#[test]
fn log_message_rejects_invalid_utf8() {
    let memory = [b'o', b'k', 0xFF, b'!'];
    match log_message(&memory, 0, 4) {
        Err(RuntimeError::InvalidArgument(m)) => {
            assert_eq!(m, "invalid utf-8 sequence of 1 bytes from index 2")
        },
        other => panic!("unexpected {other:?}"),
    }
    assert_eq!(log_message(&memory, 0, 2).unwrap(), "ok");
}

#[test]
fn log_message_names_long_lengths_in_decimal() {
    let memory = [0u8; 4];
    match log_message(&memory, 0xABC, 1234) {
        Err(RuntimeError::InvalidArgument(m)) => {
            assert_eq!(m, "debug_log: pointer 0xABC + len 1234 out of bounds")
        },
        other => panic!("unexpected {other:?}"),
    }
}

#[test]
fn isr_export_names() {
    assert_eq!(isr_export(0), "__isr_0");
    assert_eq!(isr_export(3), "__isr_3");
    assert_eq!(isr_export(255), "__isr_255");
}

#[test]
fn text_rendering_matches_std_format() {
    for v in [0u32, 1, 9, 10, 15, 16, 255, 256, 4095, 65535, 1_000_000, u32::MAX] {
        assert_eq!(format_decimal(v), format!("{v}"));
        for w in [0usize, 1, 4, 6, 10, 12] {
            assert_eq!(format_hex(v, w), format!("{v:#0w$X}"));
        }
    }
}
