//! The write-once cell that holds a relay's start reference.
use vstd::prelude::*;

use once_cell::sync::OnceCell;

verus! {

#[verifier::external_type_specification]
#[verifier::external_body]
#[verifier::reject_recursive_types(T)]
pub struct ExOnceCell<T>(once_cell::sync::OnceCell<T>);

/// The value that a start cell holds, if it was ever set.
pub uninterp spec fn start_cell_value(c: OnceCell<u64>) -> Option<u64>;

/// Relies on `once_cell::sync::OnceCell::new`: the cell starts empty.
#[verifier::external_body]
pub(crate) fn new_start_cell() -> (c: OnceCell<u64>)
    ensures
        start_cell_value(c) is None,
{
    OnceCell::new()
}

/// Relies on `once_cell::sync::OnceCell::get`: the value if the cell is set,
/// `None` if it is empty.
#[verifier::external_body]
pub(crate) fn start_cell_get(c: &OnceCell<u64>) -> (r: Option<u64>)
    ensures
        r == start_cell_value(*c),
{
    c.get().copied()
}

/// Relies on `once_cell::sync::OnceCell::set`: an empty cell takes `value`
/// and `Ok(())` comes back; a full cell keeps its value and hands `value`
/// back in `Err`.
#[verifier::external_body]
pub(crate) fn start_cell_set(c: &mut OnceCell<u64>, value: u64) -> (r: Result<(), u64>)
    ensures
        start_cell_value(*final(c)) == (match start_cell_value(*old(c)) {
            Some(v) => Some(v),
            None => Some(value),
        }),
        r == (if start_cell_value(*old(c)) is None { Ok::<(), u64>(()) } else { Err::<(), u64>(value) }),
{
    c.set(value)
}

} // verus!
