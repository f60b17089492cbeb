//! The decision behind the MCU handle's typed reads: how a read reply
//! becomes a typed value.

use vstd::prelude::*;

use crate::error::{McuError, RuntimeError};
use crate::volatile_access::{width_mismatch, Value, VolatileAccess};

verus! {

/// Turns the value a bus read returned into a `T`.
///
/// The read succeeds exactly when the value has `T`'s width; otherwise the
/// caller gets a width mismatch naming the requested and the actual width.
pub fn decode_read<T: VolatileAccess>(val: Value) -> (r: Result<T, RuntimeError>)
    ensures
        (r is Ok) <==> val.tag() == T::spec_width(),
        r matches Ok(x) ==> x.spec_to_value() == val && Some(x) == T::spec_from_value(val),
        r matches Err(e) ==> e == RuntimeError::Mcu(width_mismatch(T::spec_width(), val)),
{
    proof {
        T::lemma_from_value(val);
    }
    match T::from_value(val) {
        Some(x) => Ok(x),
        None => Err(
            RuntimeError::Mcu(McuError::WidthMismatch { requested: T::width().size(), actual: val.size() }),
        ),
    }
}

} // verus!
