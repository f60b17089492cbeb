use firmament::error::{BusError, Custom, DeviceError, McuError, ReadError, RuntimeError, WriteError};
use firmament::mcu::Config;
use firmament::mcu::mmio::{Read, Write};
use firmament::volatile_access::{Addr, Value, Width};

#[test]
fn config_default_values() {
    let c = Config::default();
    assert_eq!(c.write_buffer, 128);
    assert_eq!(c.cmd_buffer, 32);
    assert_eq!(c.yield_interval, 10_000);
}

#[test]
fn custom_builds_custom_variant() {
    assert!(matches!(ReadError::custom("r".into()), ReadError::Custom(m) if m == "r"));
    assert!(matches!(WriteError::custom("w".into()), WriteError::Custom(m) if m == "w"));
    assert!(matches!(DeviceError::custom("d".into()), DeviceError::Custom(m) if m == "d"));
    assert!(matches!(BusError::custom("b".into()), BusError::Custom(m) if m == "b"));
    assert!(matches!(McuError::custom("m".into()), McuError::Custom(m) if m == "m"));
    assert!(matches!(RuntimeError::custom("x".into()), RuntimeError::Custom(m) if m == "x"));
}

#[test]
fn errors_wrap_upwards() {
    let d = DeviceError::from(ReadError::WriteOnly { offset: 4 });
    assert!(matches!(d, DeviceError::Read(ReadError::WriteOnly { offset: 4 })));
    let d = DeviceError::from(WriteError::ReadOnly { offset: 8 });
    assert!(matches!(d, DeviceError::Write(WriteError::ReadOnly { offset: 8 })));
    let b = BusError::from(DeviceError::Custom("x".into()));
    assert!(matches!(b, BusError::Device(DeviceError::Custom(_))));
    let m = McuError::from(BusError::UnmappedAddress { addr: 0x10 });
    assert!(matches!(m, McuError::Bus(BusError::UnmappedAddress { addr: 0x10 })));
    let r = RuntimeError::from(McuError::WidthMismatch { requested: 8, actual: 32 });
    assert!(matches!(r, RuntimeError::Mcu(McuError::WidthMismatch { requested: 8, actual: 32 })));
}

#[test]
fn mmio_operations_keep_their_arguments() {
    let r = Read::new(Addr::new(0x4000_0010), Width::U16);
    assert_eq!(r.addr(), Addr::new(0x4000_0010));
    assert_eq!(r.width(), Width::U16);
    let w = Write::new(Addr::new(0x4000_0014), Value::U8(1));
    assert_eq!(w.addr(), Addr::new(0x4000_0014));
    assert_eq!(w.width(), Width::U8);
    assert_eq!(w.value(), Value::U8(1));
}
