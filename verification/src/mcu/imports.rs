//! Argument checks of the host functions that firmware imports: the values
//! it writes to registers, and the text it logs.

use vstd::prelude::*;

use crate::error::RuntimeError;
use crate::text::{decimal_literal, format_decimal, format_hex, hex_literal};
use crate::volatile_access::{Value, Width};

verus! {

/// The message for a value too wide for its register, e.g.
/// `value 0x100 exceeds 8-bit range (max 0xFF)`.
pub open spec fn overflow_message(val: u32, width: Width) -> Seq<char> {
    "value "@ + hex_literal(val, 0) + " exceeds "@ + width.text() + " range (max "@ + hex_literal(
        width.max_value(),
        0,
    ) + ")"@
}

/// The message for a log buffer outside guest memory, e.g.
/// `debug_log: pointer 0x10 + len 4 out of bounds`.
pub open spec fn out_of_bounds_message(ptr: u32, len: u32) -> Seq<char> {
    "debug_log: pointer "@ + hex_literal(ptr, 0) + " + len "@ + decimal_literal(len)
        + " out of bounds"@
}

/// What `std::str::from_utf8` makes of the bytes: the decoded text, or the
/// text of its `Utf8Error`.
pub uninterp spec fn utf8_decoding(bytes: Seq<u8>) -> Result<Seq<char>, Seq<char>>;

/// Builds [`overflow_message`].
fn overflow_text(val: u32, width: Width) -> (r: String)
    ensures
        r@ == overflow_message(val, width),
{
    let mut s = String::from_str("value ");
    let v = format_hex(val, 0);
    s.append(v.as_str());
    s.append(" exceeds ");
    let w = width.to_string();
    s.append(w.as_str());
    s.append(" range (max ");
    let m = format_hex(width.max(), 0);
    s.append(m.as_str());
    s.append(")");
    s
}

/// Builds [`out_of_bounds_message`].
fn out_of_bounds_text(ptr: u32, len: u32) -> (r: String)
    ensures
        r@ == out_of_bounds_message(ptr, len),
{
    let mut s = String::from_str("debug_log: pointer ");
    let p = format_hex(ptr, 0);
    s.append(p.as_str());
    s.append(" + len ");
    let l = format_decimal(len);
    s.append(l.as_str());
    s.append(" out of bounds");
    s
}

/// Decodes bytes as UTF-8 with `std::str::from_utf8`, rendering its error with
/// `to_string`. Claimed: the outcome is [`utf8_decoding`] of the bytes.
#[verifier::external_body]
fn decode_utf8(bytes: &[u8]) -> (r: Result<String, String>)
    ensures
        match r {
            Ok(s) => utf8_decoding(bytes@) == Ok::<Seq<char>, Seq<char>>(s@),
            Err(e) => utf8_decoding(bytes@) == Err::<Seq<char>, Seq<char>>(e@),
        },
{
    match std::str::from_utf8(bytes) {
        Ok(s) => Ok(s.to_string()),
        Err(e) => Err(e.to_string()),
    }
}

/// The register value firmware writes with a `write_volatile_*` import of
/// the given width: it passes every value as a `u32`, which must fit the width.
pub fn write_value(width: Width, val: u32) -> (r: Result<Value, RuntimeError>)
    ensures
        (r is Ok) <==> val <= width.max_value(),
        r matches Ok(v) ==> v.tag() == width && v.raw() == val,
        r matches Err(e) ==> e matches RuntimeError::InvalidArgument(m) && m@ == overflow_message(
            val,
            width,
        ),
{
    match width {
        Width::U8 => {
            if val > 0xFF {
                Err(RuntimeError::InvalidArgument(overflow_text(val, width)))
            } else {
                Ok(Value::U8(val as u8))
            }
        },
        Width::U16 => {
            if val > 0xFFFF {
                Err(RuntimeError::InvalidArgument(overflow_text(val, width)))
            } else {
                Ok(Value::U16(val as u16))
            }
        },
        Width::U32 => Ok(Value::U32(val)),
    }
}

/// The text firmware logs with the `log` import: `len` bytes of guest memory
/// from `ptr`, which must lie inside the memory and be valid UTF-8.
pub fn log_message(memory: &[u8], ptr: u32, len: u32) -> (r: Result<String, RuntimeError>)
    requires
        ptr + len <= usize::MAX,
    ensures
        ptr + len > memory@.len() ==> (r matches Err(RuntimeError::InvalidArgument(m)) && m@
            == out_of_bounds_message(ptr, len)),
        ptr + len <= memory@.len() ==> match utf8_decoding(
            memory@.subrange(ptr as int, ptr + len),
        ) {
            Ok(text) => (r matches Ok(s) && s@ == text),
            Err(msg) => (r matches Err(RuntimeError::InvalidArgument(m)) && m@ == msg),
        },
{
    let start = ptr as usize;
    let end = start + len as usize;
    if end > memory.len() {
        return Err(RuntimeError::InvalidArgument(out_of_bounds_text(ptr, len)));
    }
    let bytes = vstd::slice::slice_subrange(memory, start, end);
    match decode_utf8(bytes) {
        Ok(s) => Ok(s),
        Err(e) => Err(RuntimeError::InvalidArgument(e)),
    }
}

} // verus!
