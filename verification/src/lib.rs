//! Small, self-contained building blocks, grouped by topic, each one stated
//! as a contract and proved.
//!
//! - `fundamentals`: functions, traits and modules at their smallest.
//! - `types`: records, enumerations and generic containers.
//! - `person`: a person with a name of their own, written out and read back.
//! - `decimal`: whole numbers written out in decimal and read back.
//! - `memory`: values on the stack and on the heap, and references to them.
//! - `once`: a cell that is written at most once.
//! - `traits`: behaviour shared by several types.
//! - `errors`: failure as a value.
//! - `tree`: a binary tree and the iterator over its leaves.
//! - `iterators`: what is commonly done to a run of numbers.
//! - `concurrency`: what threads do to the records they share.
//! - `users`: users, looked up by their number.
//! - `hello`: the greeting of the web service.

pub mod concurrency;
pub mod decimal;
pub mod errors;
pub mod fundamentals;
pub mod hello;
pub mod iterators;
pub mod memory;
pub mod once;
pub mod person;
pub mod traits;
pub mod tree;
pub mod types;
pub mod users;
