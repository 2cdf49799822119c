//! The records that several threads share, and what each thread does to
//! them once it holds them: the work between taking a lock and giving it
//! back.

use crate::person::Person;
use vstd::prelude::*;

verus! {

/// Where somebody lives.
#[derive(Clone, Debug, PartialEq, Eq)]
pub struct Address {
    pub street: String,
    pub city: String,
}

/// Somebody with a name, an age and a home.
#[derive(Clone, Debug, PartialEq, Eq)]
pub struct Resident {
    pub name: String,
    pub age: i32,
    pub address: Address,
}

impl Resident {
    /// Moves this resident to another city. Nothing else changes.
    pub fn move_to(&mut self, city: String)
        ensures
            final(self).address.city == city,
            final(self).address.street == old(self).address.street,
            final(self).name == old(self).name,
            final(self).age == old(self).age,
    {
        self.address.city = city;
    }
}

/// The age of the person who stands at `index` in `database`.
pub fn age_of(database: &Vec<Person>, index: usize) -> (age: i32)
    requires
        index < database@.len(),
    ensures
        age == database@[index as int].age,
{
    database[index].age
}

/// Makes the person who stands at `index` in `database` a year older, and
/// gives the new age. Nobody else changes.
pub fn celebrate(database: &mut Vec<Person>, index: usize) -> (age: i32)
    requires
        index < old(database)@.len(),
        old(database)@[index as int].age < i32::MAX,
    ensures
        age == old(database)@[index as int].age + 1,
        final(database)@.len() == old(database)@.len(),
        final(database)@[index as int].age == age,
        final(database)@[index as int].name == old(database)@[index as int].name,
        forall|i: int|
            0 <= i < old(database)@.len() && i != index ==> final(database)@[i] == old(
                database,
            )@[i],
{
    let age = database[index].age + 1;
    database[index].age = age;
    age
}

} // verus!
