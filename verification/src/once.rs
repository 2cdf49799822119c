//! A cell that is written at most once: whoever writes first decides what
//! it holds.

use crate::person::Person;
use once_cell::unsync::OnceCell;
use vstd::prelude::*;

verus! {

#[verifier::external_type_specification]
#[verifier::external_body]
#[verifier::reject_recursive_types(T)]
pub struct ExOnceCell<T>(OnceCell<T>);

/// What a cell holds: nothing yet, or the person written to it.
pub uninterp spec fn cell_contents(cell: OnceCell<Person>) -> Option<Person>;

/// `once_cell::unsync::OnceCell::new`: a cell that holds nothing yet.
#[verifier::external_body]
fn new_cell() -> (cell: OnceCell<Person>)
    ensures
        cell_contents(cell) is None,
{
    OnceCell::new()
}

/// `once_cell::unsync::OnceCell::get_or_init`, with an initialiser that
/// hands over `value`: an empty cell then holds `value`, and a cell that
/// holds something keeps it.
#[verifier::external_body]
fn get_or_init(cell: &mut OnceCell<Person>, value: Person)
    ensures
        cell_contents(*final(cell)) == Some(
            match cell_contents(*old(cell)) {
                Some(kept) => kept,
                None => value,
            },
        ),
{
    cell.get_or_init(move || value);
}

/// `once_cell::unsync::OnceCell::into_inner`: what the cell holds, the cell
/// itself being given up.
#[verifier::external_body]
fn into_inner(cell: OnceCell<Person>) -> (value: Option<Person>)
    ensures
        value == cell_contents(cell),
{
    cell.into_inner()
}

/// Writes `first` to a fresh cell, then tries to write `second` to it, and
/// hands back what the cell holds in the end: the person written first.
pub fn first_write_wins(first: Person, second: Person) -> (kept: Person)
    ensures
        kept == first,
{
    let mut cell = new_cell();
    get_or_init(&mut cell, first);
    get_or_init(&mut cell, second);
    match into_inner(cell) {
        Some(kept) => kept,
        None => vstd::pervasive::unreached(),
    }
}

} // verus!
