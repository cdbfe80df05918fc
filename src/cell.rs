use once_cell::sync::OnceCell;
use vstd::prelude::*;

verus! {

/// The outside cell that stores the value and makes the empty-to-set step
/// atomic.
#[verifier::external_type_specification]
#[verifier::external_body]
#[verifier::reject_recursive_types(T)]
pub struct ExOnceCell<T>(OnceCell<T>);

/// A cell that is set at most once and read as if it were always set.
///
/// `contents` records what `inner` holds. `inner` is private and is reached
/// only through the wrappers below, whose contracts say how each call reads or
/// changes the record.
///
/// Verus takes a value behind `&` to be fixed, so the one step that changes the
/// cell, from empty to set, is made through `&mut`: a cell shared by several
/// threads is set before it is shared, or behind a lock. Reads go through `&`,
/// and `inner` publishes the stored value to every thread that reads it.
#[verifier::reject_recursive_types(T)]
pub struct AlwaysCell<T> {
    inner: OnceCell<T>,
    contents: Ghost<Option<T>>,
}

impl<T> View for AlwaysCell<T> {
    type V = Option<T>;

    /// `None` while the cell is empty, `Some(v)` once it holds `v`.
    closed spec fn view(&self) -> Option<T> {
        self.contents@
    }
}

/// What the cell holds after `try_set(value)` on a cell whose contents were `s`:
/// an empty cell takes `value`, a set one keeps what it had.
pub open spec fn filled<T>(s: Option<T>, value: T) -> Option<T> {
    match s {
        Some(held) => Some(held),
        None => Some(value),
    }
}

/// What `try_set(value)` returns on a cell whose contents were `s`: success on
/// an empty cell, otherwise the rejected value handed back.
pub open spec fn try_set_outcome<T>(s: Option<T>, value: T) -> Result<(), T> {
    match s {
        Some(_) => Err(value),
        None => Ok(()),
    }
}

/// Relies on once_cell::sync::OnceCell::new, which makes an empty cell.
#[verifier::external_body]
fn empty_once_cell<T>() -> (r: OnceCell<T>) {
    OnceCell::new()
}

/// Relies on once_cell::sync::OnceCell::set: it stores `value` and returns
/// `Ok(())` when the cell is empty, and hands `value` back in `Err` when the
/// cell already holds a value.
#[verifier::external_body]
fn once_cell_set<T>(cell: &mut AlwaysCell<T>, value: T) -> (r: Result<(), T>)
    ensures
        r == try_set_outcome(old(cell)@, value),
        final(cell)@ == filled(old(cell)@, value),
{
    cell.inner.set(value)
}

/// Relies on once_cell::sync::OnceCell::get: a reference to the stored value,
/// or `None` while the cell is empty.
#[verifier::external_body]
fn once_cell_get<T>(cell: &AlwaysCell<T>) -> (r: Option<&T>)
    ensures
        match r {
            Some(x) => cell@ == Some(*x),
            None => cell@ is None,
        },
{
    cell.inner.get()
}

impl<T> AlwaysCell<T> {
    /// Makes an empty cell.
    pub fn new() -> (r: Self)
        ensures
            r@ is None,
    {
        AlwaysCell { inner: empty_once_cell(), contents: Ghost(None) }
    }

    /// Stores `value` in an empty cell. Setting a cell twice is a logic error:
    /// `requires` rules it out, and a caller outside verified code that does it
    /// anyway gets a panic.
    pub fn set(self_: &mut Self, value: T)
        requires
            old(self_)@ is None,
        ensures
            final(self_)@ == Some(value),
    {
        once_cell_set(self_, value).ok().expect("called AlwaysCell::set more than once");
    }

    /// Stores `value` if the cell is empty and returns `Ok(())`; otherwise
    /// leaves the cell as it was and hands `value` back in `Err`.
    pub fn try_set(self_: &mut Self, value: T) -> (r: Result<(), T>)
        ensures
            r == try_set_outcome(old(self_)@, value),
            final(self_)@ == filled(old(self_)@, value),
    {
        once_cell_set(self_, value)
    }

    /// Whether the cell holds a value.
    pub fn is_set(self_: &Self) -> (r: bool)
        ensures
            r == self_@ is Some,
    {
        once_cell_get(self_).is_some()
    }

    /// The held value, or `None` while the cell is empty.
    pub fn get(self_: &Self) -> (r: Option<&T>)
        ensures
            match r {
                Some(x) => self_@ == Some(*x),
                None => self_@ is None,
            },
    {
        once_cell_get(self_)
    }

    /// The held value, for a cell that is known to be set.
    pub fn value(self_: &Self) -> (r: &T)
        requires
            self_@ is Some,
        ensures
            self_@ == Some(*r),
    {
        once_cell_get(self_).expect("AlwaysCell::value called before `set`")
    }
}

impl<T> std::ops::Deref for AlwaysCell<T> {
    type Target = T;

    /// Relies on once_cell::sync::OnceCell::get, as `value` does. A trait
    /// method can take no `requires`, so reading an empty cell here panics
    /// instead of being ruled out; verified code reads through `value`.
    #[verifier::external_body]
    fn deref(&self) -> (r: &T)
        ensures
            self@ == Some(*r),
    {
        self.inner.get().expect("AlwaysCell::deref called before `set`")
    }
}

} // verus!
