//! Literals, functions, items: the smallest units a program is made of.

use vstd::prelude::*;

pub mod math;

verus! {

/// The byte that stands for the capital letter H in ASCII.
pub fn byte_literal() -> (answer: u8)
    ensures
        answer == 72,
        answer == 'H' as u8,
{
    'H' as u8
}

/// The successor of `x`.
pub fn add_one(x: i32) -> (y: i32)
    requires
        x < i32::MAX,
    ensures
        y == x + 1,
{
    x + 1
}

/// The answer, as a free function.
pub fn answer() -> (value: i32)
    ensures
        value == 42,
{
    42
}

/// Something that can be asked for its answer.
pub trait Answer {
    /// What this value answers.
    spec fn answer_spec(&self) -> int;

    fn answer(&self) -> (value: i32)
        ensures
            value == self.answer_spec(),
    ;
}

/// The question whose answer is always 42.
pub struct Question {}

impl Answer for Question {
    open spec fn answer_spec(&self) -> int {
        42
    }

    fn answer(&self) -> (value: i32) {
        42
    }
}

} // verus!
