//! The lazy holder of one backend: empty until the first caller needs the
//! backend, constructed then, and never constructed again.

use crate::backend::Backend;
use crate::error::ResolutionError;
use once_cell::sync::OnceCell;
use vstd::prelude::*;

verus! {

/// `once_cell::sync::OnceCell`, a cell that is written at most once.
#[verifier::external_type_specification]
#[verifier::external_body]
#[verifier::reject_recursive_types(T)]
pub struct ExOnceCell<T>(OnceCell<T>);

/// What a cell of backends holds: the backend it was filled with, or nothing.
pub uninterp spec fn cell_backend(cell: OnceCell<Backend>) -> Option<Backend>;

/// `OnceCell::new`: a cell that holds nothing.
#[verifier::external_body]
fn empty_cell() -> (cell: OnceCell<Backend>)
    ensures
        cell_backend(cell) is None,
{
    OnceCell::new()
}

/// `OnceCell::get`: a reference to what the cell holds, `None` for an empty
/// cell.
#[verifier::external_body]
fn cell_get(cell: &OnceCell<Backend>) -> (r: Option<&Backend>)
    ensures
        r is Some <==> cell_backend(*cell) is Some,
        r is Some ==> *r->Some_0 == cell_backend(*cell)->Some_0,
{
    cell.get()
}

/// `OnceCell::get_or_try_init`, on a cell that no other caller can reach
/// during the call. A filled cell is left as it is and its value is handed
/// out; `init` is not run. On an empty cell `init` is run once: its value is
/// stored and handed out, or its error is returned and the cell stays empty.
#[verifier::external_body]
fn cell_get_or_try_init<F: FnOnce() -> Result<Backend, ResolutionError>>(
    cell: &mut OnceCell<Backend>,
    init: F,
) -> (r: Result<&Backend, ResolutionError>)
    requires
        call_requires(init, ()),
    ensures
        cell_backend(*old(cell)) is Some ==> r is Ok && *r->Ok_0 == cell_backend(*old(cell))->Some_0
            && cell_backend(*final(cell)) == cell_backend(*old(cell)),
        cell_backend(*old(cell)) is None && r is Ok ==> call_ensures(
            init,
            (),
            Ok::<Backend, ResolutionError>(*r->Ok_0),
        ) && cell_backend(*final(cell)) == Some(*r->Ok_0),
        cell_backend(*old(cell)) is None && r is Err ==> call_ensures(
            init,
            (),
            Err::<Backend, ResolutionError>(r->Err_0),
        ) && cell_backend(*final(cell)) is None,
{
    cell.get_or_try_init(init)
}

/// What a holder has after a caller asked it for its backend, and what the
/// caller got, where `built` is what constructing the backend gives: a filled
/// holder hands out what it has, whatever `built` is; an empty one keeps and
/// hands out a constructed backend, and stays empty on a failed construction.
pub open spec fn acquire(held: Option<Backend>, built: Result<Backend, ResolutionError>) -> (
    Option<Backend>,
    Result<Backend, ResolutionError>,
) {
    match held {
        Some(backend) => (held, Ok(backend)),
        None => match built {
            Ok(backend) => (Some(backend), built),
            Err(_) => (None, built),
        },
    }
}

/// What a caller got from a holder, as a value.
pub open spec fn handed_out(r: Result<&Backend, ResolutionError>) -> Result<
    Backend,
    ResolutionError,
> {
    match r {
        Ok(backend) => Ok(*backend),
        Err(e) => Err(e),
    }
}

/// A backend that is constructed on first use.
#[derive(Debug)]
pub struct LazyBackend {
    cell: OnceCell<Backend>,
}

impl LazyBackend {
    /// The backend that was constructed, if any was.
    pub closed spec fn value(self) -> Option<Backend> {
        cell_backend(self.cell)
    }

    /// A holder whose backend is still to be constructed.
    pub fn new() -> (holder: LazyBackend)
        ensures
            holder.value() is None,
    {
        LazyBackend { cell: empty_cell() }
    }

    /// The backend, if it has been constructed.
    pub fn get(&self) -> (r: Option<&Backend>)
        ensures
            r is Some <==> self.value() is Some,
            r is Some ==> *r->Some_0 == self.value()->Some_0,
    {
        cell_get(&self.cell)
    }

    /// Whether the backend has been constructed.
    pub fn is_ready(&self) -> (r: bool)
        ensures
            r == self.value() is Some,
    {
        cell_get(&self.cell).is_some()
    }

    /// The backend, constructed by `init` if the holder is empty. A holder
    /// that has its backend hands it out and does not run `init`. A holder
    /// that is empty runs `init` once, keeps what it constructed, and stays
    /// empty where it failed, so that a later call tries again.
    pub fn get_or_try_init<F: FnOnce() -> Result<Backend, ResolutionError>>(
        &mut self,
        init: F,
    ) -> (r: Result<&Backend, ResolutionError>)
        requires
            call_requires(init, ()),
        ensures
            (final(self).value(), handed_out(r)) == acquire(old(self).value(), handed_out(r)),
            old(self).value() is None ==> call_ensures(init, (), handed_out(r)),
    {
        cell_get_or_try_init(&mut self.cell, init)
    }
}

} // verus!
