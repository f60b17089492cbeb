//! Decisions of the firmware runtime that do not touch Wasmtime itself.

use vstd::prelude::*;

use crate::text::{decimal_literal, format_decimal};

verus! {

/// The name of the export that handles interrupt `irq`: `__isr_` and the
/// IRQ number in decimal.
pub open spec fn isr_export_name(irq: u8) -> Seq<char> {
    "__isr_"@ + decimal_literal(irq as u32)
}

/// Returns the name of the firmware export that handles interrupt `irq`,
/// e.g. `__isr_3`.
pub fn isr_export(irq: u8) -> (r: String)
    ensures
        r@ == isr_export_name(irq),
{
    let mut s = String::from_str("__isr_");
    let n = format_decimal(irq as u32);
    s.append(n.as_str());
    s
}

} // verus!
