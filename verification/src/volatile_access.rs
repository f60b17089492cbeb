//! Width-tagged register values and addresses.

use vstd::prelude::*;

use crate::error::McuError;
use crate::text::{
    all_digits, decimal_digits, decimal_literal, digits_value, format_hex, hex_literal,
    lemma_hex_digits_len_bound, lemma_hex_literal_denotes, pow16,
};

verus! {

/// Access width for a volatile memory operation.
#[derive(Debug, Clone, Copy, PartialEq, Eq, Structural)]
pub enum Width {
    /// 8-bit access.
    U8,
    /// 16-bit access.
    U16,
    /// 32-bit access.
    U32,
}

impl Width {
    /// The number of bits of an access of this width.
    pub open spec fn bits(self) -> u8 {
        match self {
            Width::U8 => 8,
            Width::U16 => 16,
            Width::U32 => 32,
        }
    }

    /// The largest value an access of this width can carry.
    pub open spec fn max_value(self) -> u32 {
        match self {
            Width::U8 => 0xFF,
            Width::U16 => 0xFFFF,
            Width::U32 => 0xFFFF_FFFF,
        }
    }

    /// Returns the bit-width (8, 16, or 32).
    pub fn size(self) -> (r: u8)
        ensures
            r == self.bits(),
    {
        match self {
            Width::U8 => 8,
            Width::U16 => 16,
            Width::U32 => 32,
        }
    }

    /// Returns the largest value an access of this width can carry.
    pub(crate) fn max(self) -> (r: u32)
        ensures
            r == self.max_value(),
    {
        match self {
            Width::U8 => 0xFF,
            Width::U16 => 0xFFFF,
            Width::U32 => 0xFFFF_FFFF,
        }
    }

    /// The display text of a width: `8-bit`, `16-bit` or `32-bit`.
    pub open spec fn text(self) -> Seq<char> {
        match self {
            Width::U8 => "8-bit"@,
            Width::U16 => "16-bit"@,
            Width::U32 => "32-bit"@,
        }
    }

    /// Renders the width as `8-bit`, `16-bit` or `32-bit`.
    pub fn to_string(self) -> (r: String)
        ensures
            r@ == self.text(),
            r@ == decimal_literal(self.bits() as u32) + "-bit"@,
    {
        proof {
            lemma_width_text(self);
        }
        match self {
            Width::U8 => String::from_str("8-bit"),
            Width::U16 => String::from_str("16-bit"),
            Width::U32 => String::from_str("32-bit"),
        }
    }
}

/// A width is displayed as its number of bits in decimal followed by `-bit`,
/// and the largest value it carries is two to the number of its bits, less one.
pub proof fn lemma_width_text(w: Width)
    ensures
        w.text() == decimal_literal(w.bits() as u32) + "-bit"@,
        w.max_value() as int == vstd::arithmetic::power2::pow2(w.bits() as nat) - 1,
{
    vstd::arithmetic::power2::lemma2_to64();
    reveal_strlit("8-bit");
    reveal_strlit("16-bit");
    reveal_strlit("32-bit");
    reveal_strlit("-bit");
    reveal_with_fuel(decimal_digits, 2);
    assert(decimal_digits(16) =~= seq!['1', '6']);
    assert(decimal_digits(32) =~= seq!['3', '2']);
    assert(w.text() =~= decimal_literal(w.bits() as u32) + "-bit"@);
}

/// A width-tagged register value.
#[derive(Debug, Clone, Copy, PartialEq, Eq, Structural)]
pub enum Value {
    /// 8-bit value.
    U8(u8),
    /// 16-bit value.
    U16(u16),
    /// 32-bit value.
    U32(u32),
}

impl Value {
    /// The width tag of this value.
    pub open spec fn tag(self) -> Width {
        match self {
            Value::U8(_) => Width::U8,
            Value::U16(_) => Width::U16,
            Value::U32(_) => Width::U32,
        }
    }

    /// The number of bits of this value.
    pub open spec fn bits(self) -> u8 {
        self.tag().bits()
    }

    /// The carried integer, zero-extended to 32 bits.
    pub open spec fn raw(self) -> u32 {
        match self {
            Value::U8(v) => v as u32,
            Value::U16(v) => v as u32,
            Value::U32(v) => v,
        }
    }

    /// Returns the bit-width of this value (8, 16, or 32).
    pub fn size(self) -> (r: u8)
        ensures
            r == self.bits(),
    {
        match self {
            Value::U8(_) => 8,
            Value::U16(_) => 16,
            Value::U32(_) => 32,
        }
    }

    /// Returns the corresponding [`Width`] discriminant.
    pub fn width(self) -> (r: Width)
        ensures
            r == self.tag(),
    {
        match self {
            Value::U8(_) => Width::U8,
            Value::U16(_) => Width::U16,
            Value::U32(_) => Width::U32,
        }
    }

    /// The number of characters a value of this width is displayed with:
    /// `0x` and one hexadecimal digit per four bits.
    pub open spec fn display_width(self) -> usize {
        match self {
            Value::U8(_) => 4,
            Value::U16(_) => 6,
            Value::U32(_) => 10,
        }
    }

    /// Renders the value in upper-case hexadecimal with a `0x` prefix,
    /// zero-padded to the digits of its width (`0x0A`, `0x00AB`, `0x0000ABCD`).
    pub fn to_string(self) -> (r: String)
        ensures
            r@ == hex_literal(self.raw(), self.display_width()),
            r@.len() == 2 + self.bits() / 4,
            r@[0] == '0' && r@[1] == 'x',
            all_digits(r@.subrange(2, r@.len() as int), 16),
            digits_value(r@.subrange(2, r@.len() as int), 16) == self.raw(),
    {
        proof {
            lemma_value_text_exact(self);
        }
        match self {
            Value::U8(v) => format_hex(v as u32, 4),
            Value::U16(v) => format_hex(v as u32, 6),
            Value::U32(v) => format_hex(v, 10),
        }
    }
}

/// A value is displayed as `0x` and exactly one hexadecimal digit per four
/// bits of its width, zero-padded, and those digits read back as the value.
pub proof fn lemma_value_text_exact(v: Value)
    ensures
        v.display_width() == 2 + v.bits() / 4,
        hex_literal(v.raw(), v.display_width()).len() == v.display_width(),
        hex_literal(v.raw(), v.display_width())[0] == '0',
        hex_literal(v.raw(), v.display_width())[1] == 'x',
        all_digits(
            hex_literal(v.raw(), v.display_width()).subrange(
                2,
                hex_literal(v.raw(), v.display_width()).len() as int,
            ),
            16,
        ),
        digits_value(
            hex_literal(v.raw(), v.display_width()).subrange(
                2,
                hex_literal(v.raw(), v.display_width()).len() as int,
            ),
            16,
        ) == v.raw(),
{
    let digits: nat = (v.bits() / 4) as nat;
    assert(pow16(2) == 0x100 && pow16(4) == 0x1_0000 && pow16(8) == 0x1_0000_0000) by {
        reveal_with_fuel(pow16, 9);
    }
    lemma_hex_digits_len_bound(v.raw() as nat, digits);
    lemma_hex_literal_denotes(v.raw(), v.display_width());
}

/// The integer a value carries never exceeds the largest value of its width.
pub proof fn lemma_value_fits_width(v: Value)
    ensures
        v.raw() <= v.tag().max_value(),
        v.bits() == v.tag().bits(),
{
}

impl From<u8> for Value {
    fn from(val: u8) -> (r: Self) {
        Value::U8(val)
    }
}

impl vstd::std_specs::convert::FromSpecImpl<u8> for Value {
    open spec fn obeys_from_spec() -> bool {
        true
    }

    open spec fn from_spec(v: u8) -> Self {
        Value::U8(v)
    }
}

impl From<u16> for Value {
    fn from(val: u16) -> (r: Self) {
        Value::U16(val)
    }
}

impl vstd::std_specs::convert::FromSpecImpl<u16> for Value {
    open spec fn obeys_from_spec() -> bool {
        true
    }

    open spec fn from_spec(v: u16) -> Self {
        Value::U16(v)
    }
}

impl From<u32> for Value {
    fn from(val: u32) -> (r: Self) {
        Value::U32(val)
    }
}

impl vstd::std_specs::convert::FromSpecImpl<u32> for Value {
    open spec fn obeys_from_spec() -> bool {
        true
    }

    open spec fn from_spec(v: u32) -> Self {
        Value::U32(v)
    }
}

/// The error returned when a value of one width is asked for as another.
pub open spec fn width_mismatch(requested: Width, actual: Value) -> McuError {
    McuError::WidthMismatch { requested: requested.bits(), actual: actual.bits() }
}

impl TryFrom<Value> for u8 {
    type Error = McuError;

    fn try_from(value: Value) -> (r: Result<Self, Self::Error>) {
        match value {
            Value::U8(v) => Ok(v),
            other => Err(McuError::WidthMismatch { requested: Width::U8.size(), actual: other.size() }),
        }
    }
}

impl vstd::std_specs::convert::TryFromSpecImpl<Value> for u8 {
    open spec fn obeys_try_from_spec() -> bool {
        true
    }

    open spec fn try_from_spec(v: Value) -> Result<Self, Self::Error> {
        match v {
            Value::U8(x) => Ok(x),
            other => Err(width_mismatch(Width::U8, other)),
        }
    }
}

impl TryFrom<Value> for u16 {
    type Error = McuError;

    fn try_from(value: Value) -> (r: Result<Self, Self::Error>) {
        match value {
            Value::U16(v) => Ok(v),
            other => Err(McuError::WidthMismatch { requested: Width::U16.size(), actual: other.size() }),
        }
    }
}

impl vstd::std_specs::convert::TryFromSpecImpl<Value> for u16 {
    open spec fn obeys_try_from_spec() -> bool {
        true
    }

    open spec fn try_from_spec(v: Value) -> Result<Self, Self::Error> {
        match v {
            Value::U16(x) => Ok(x),
            other => Err(width_mismatch(Width::U16, other)),
        }
    }
}

impl From<Value> for u32 {
    fn from(value: Value) -> (r: Self) {
        match value {
            Value::U8(v) => v as u32,
            Value::U16(v) => v as u32,
            Value::U32(v) => v,
        }
    }
}

impl vstd::std_specs::convert::FromSpecImpl<Value> for u32 {
    open spec fn obeys_from_spec() -> bool {
        true
    }

    open spec fn from_spec(v: Value) -> Self {
        v.raw()
    }
}

/// Conversion between native integer types and width-tagged [`Value`]s.
pub trait VolatileAccess: Sized {
    /// The width associated with this type.
    spec fn spec_width() -> Width;

    /// The value that wraps `self`.
    spec fn spec_to_value(self) -> Value;

    /// The integer a value carries, when its width is this type's.
    spec fn spec_from_value(val: Value) -> Option<Self>;

    /// Wrapping then unwrapping gives the integer back, tagged with this type's width.
    proof fn lemma_round_trip(x: Self)
        ensures
            Self::spec_from_value(x.spec_to_value()) == Some(x),
            x.spec_to_value().tag() == Self::spec_width(),
    ;

    /// Unwrapping succeeds exactly on values of this type's width, and undoes wrapping.
    proof fn lemma_from_value(val: Value)
        ensures
            (Self::spec_from_value(val) is Some) <==> val.tag() == Self::spec_width(),
            Self::spec_from_value(val) matches Some(x) ==> x.spec_to_value() == val,
    ;

    /// Wraps this integer in a [`Value`].
    fn to_value(self) -> (v: Value)
        ensures
            v == self.spec_to_value(),
    ;

    /// Extracts the integer from a [`Value`], returning `None` on width mismatch.
    fn from_value(val: Value) -> (r: Option<Self>)
        ensures
            r == Self::spec_from_value(val),
    ;

    /// Returns the [`Width`] associated with this type.
    fn width() -> (w: Width)
        ensures
            w == Self::spec_width(),
    ;
}

impl VolatileAccess for u8 {
    open spec fn spec_width() -> Width {
        Width::U8
    }

    open spec fn spec_to_value(self) -> Value {
        Value::U8(self)
    }

    open spec fn spec_from_value(val: Value) -> Option<Self> {
        match val {
            Value::U8(v) => Some(v),
            _ => None,
        }
    }

    proof fn lemma_round_trip(x: Self) {
    }

    proof fn lemma_from_value(val: Value) {
    }

    fn to_value(self) -> (v: Value) {
        Value::U8(self)
    }

    fn from_value(val: Value) -> (r: Option<Self>) {
        match val {
            Value::U8(v) => Some(v),
            _ => None,
        }
    }

    fn width() -> (w: Width) {
        Width::U8
    }
}

impl VolatileAccess for u16 {
    open spec fn spec_width() -> Width {
        Width::U16
    }

    open spec fn spec_to_value(self) -> Value {
        Value::U16(self)
    }

    open spec fn spec_from_value(val: Value) -> Option<Self> {
        match val {
            Value::U16(v) => Some(v),
            _ => None,
        }
    }

    proof fn lemma_round_trip(x: Self) {
    }

    proof fn lemma_from_value(val: Value) {
    }

    fn to_value(self) -> (v: Value) {
        Value::U16(self)
    }

    fn from_value(val: Value) -> (r: Option<Self>) {
        match val {
            Value::U16(v) => Some(v),
            _ => None,
        }
    }

    fn width() -> (w: Width) {
        Width::U16
    }
}

impl VolatileAccess for u32 {
    open spec fn spec_width() -> Width {
        Width::U32
    }

    open spec fn spec_to_value(self) -> Value {
        Value::U32(self)
    }

    open spec fn spec_from_value(val: Value) -> Option<Self> {
        match val {
            Value::U32(v) => Some(v),
            _ => None,
        }
    }

    proof fn lemma_round_trip(x: Self) {
    }

    proof fn lemma_from_value(val: Value) {
    }

    fn to_value(self) -> (v: Value) {
        Value::U32(self)
    }

    fn from_value(val: Value) -> (r: Option<Self>) {
        match val {
            Value::U32(v) => Some(v),
            _ => None,
        }
    }

    fn width() -> (w: Width) {
        Width::U32
    }
}

/// Wrapping an integer into a [`Value`] and unwrapping it as the same type gives
/// the integer back, and the wrapped value has the type's width.
pub proof fn lemma_volatile_round_trip<T: VolatileAccess>(x: T)
    ensures
        T::spec_from_value(x.spec_to_value()) == Some(x),
        x.spec_to_value().tag() == T::spec_width(),
{
    T::lemma_round_trip(x);
}

/// Unwrapping a [`Value`] as a type succeeds exactly when the value has that
/// type's width, and wrapping the result again gives the same value.
pub proof fn lemma_volatile_from_value<T: VolatileAccess>(val: Value)
    ensures
        (T::spec_from_value(val) is Some) <==> val.tag() == T::spec_width(),
        T::spec_from_value(val) matches Some(x) ==> x.spec_to_value() == val,
{
    T::lemma_from_value(val);
}

/// A 32-bit memory-mapped address.
#[derive(Debug, Clone, Copy, PartialEq, Eq, Hash, Structural)]
pub struct Addr(u32);

impl View for Addr {
    type V = u32;

    closed spec fn view(&self) -> u32 {
        self.0
    }
}

impl Addr {
    /// Creates a new address from a raw `u32`.
    pub fn new(addr: u32) -> (r: Self)
        ensures
            r@ == addr,
    {
        Addr(addr)
    }

    /// Renders the address as `0x` and eight upper-case hexadecimal digits.
    pub fn to_string(self) -> (r: String)
        ensures
            r@ == hex_literal(self@, 10),
            r@.len() == 10,
            r@[0] == '0' && r@[1] == 'x',
            all_digits(r@.subrange(2, 10), 16),
            digits_value(r@.subrange(2, 10), 16) == self@,
    {
        proof {
            lemma_value_text_exact(Value::U32(self@));
        }
        format_hex(self.0, 10)
    }

    /// Two addresses are equal exactly when their raw values are.
    pub proof fn lemma_view_injective(a: Addr, b: Addr)
        ensures
            (a@ == b@) <==> (a == b),
    {
    }
}

impl From<u32> for Addr {
    fn from(addr: u32) -> (r: Self) {
        Addr(addr)
    }
}

impl vstd::std_specs::convert::FromSpecImpl<u32> for Addr {
    open spec fn obeys_from_spec() -> bool {
        true
    }

    open spec fn from_spec(v: u32) -> Self {
        Addr::spec_new(v)
    }
}

impl Addr {
    /// The address whose raw value is `v`.
    pub closed spec fn spec_new(v: u32) -> Addr {
        Addr(v)
    }

    /// The address built from a raw value gives that value back.
    pub proof fn lemma_spec_new(v: u32)
        ensures
            Addr::spec_new(v)@ == v,
    {
    }
}

impl From<Addr> for u32 {
    fn from(addr: Addr) -> (r: Self) {
        addr.0
    }
}

impl vstd::std_specs::convert::FromSpecImpl<Addr> for u32 {
    open spec fn obeys_from_spec() -> bool {
        true
    }

    open spec fn from_spec(v: Addr) -> Self {
        v@
    }
}

} // verus!
