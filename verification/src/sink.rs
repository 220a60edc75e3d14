//! The cell of the auxiliary slot: a `OnceCell` that holds the timing dispatch
//! handle. What is stated here of `once_cell` and of `tracing` is taken on
//! trust; the registry is proved against it.

use once_cell::sync::OnceCell;
use tracing::Dispatch;
use vstd::prelude::*;

verus! {

/// `once_cell::sync::OnceCell`: a cell that can be written to only once.
#[verifier::external_type_specification]
#[verifier::external_body]
#[verifier::reject_recursive_types(T)]
pub struct ExOnceCell<T>(OnceCell<T>);

/// `tracing::Dispatch`: a handle to a subscriber, carried through as it is.
#[verifier::external_type_specification]
#[verifier::external_body]
pub struct ExDispatch(Dispatch);

/// The handle that a cell holds, if it has been set.
pub uninterp spec fn held(cell: OnceCell<Dispatch>) -> Option<Dispatch>;

/// `OnceCell::new`: a cell that holds nothing.
#[verifier::external_body]
pub(crate) fn cell_new() -> (cell: OnceCell<Dispatch>)
    ensures
        held(cell) is None,
{
    OnceCell::new()
}

/// `OnceCell::set`, called on a cell that nobody else can reach, which is why
/// the cell is taken by `&mut`: an empty cell takes the handle, a full one
/// stays as it is and hands the handle back.
#[verifier::external_body]
pub(crate) fn cell_set(cell: &mut OnceCell<Dispatch>, handle: Dispatch) -> (r: Result<(), Dispatch>)
    ensures
        held(*old(cell)) is None ==> r is Ok && held(*final(cell)) == Some(handle),
        held(*old(cell)) is Some ==> r is Err && r->Err_0 == handle && *final(cell) == *old(cell),
{
    cell.set(handle)
}

/// `OnceCell::get`: a reference to the handle held, if any. It never blocks.
#[verifier::external_body]
pub(crate) fn cell_get(cell: &OnceCell<Dispatch>) -> (r: Option<&Dispatch>)
    ensures
        r is Some == held(*cell) is Some,
        r matches Some(handle) ==> held(*cell) == Some(*handle),
{
    cell.get()
}

/// `Dispatch::clone`: another handle to the same subscriber.
#[verifier::external_body]
pub(crate) fn handle_clone(handle: &Dispatch) -> (r: Dispatch)
    ensures
        r == *handle,
{
    handle.clone()
}

} // verus!
