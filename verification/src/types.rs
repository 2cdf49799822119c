//! Records, enumerations and generic containers, with the operations that
//! read them.

use vstd::prelude::*;

verus! {

/// A person known by a borrowed name.
#[derive(Clone, Copy, Debug, PartialEq, Eq, Hash)]
pub struct Person<'a> {
    pub name: &'a str,
    pub age: u32,
}

impl<'a> Default for Person<'a> {
    /// The person with the empty name and age zero.
    fn default() -> (person: Self)
        ensures
            person.name@ == Seq::<char>::empty(),
            person.age == 0,
    {
        proof {
            reveal_strlit("");
        }
        let person = Person { name: "", age: 0 };
        assert(person.name@ =~= Seq::<char>::empty());
        person
    }
}

/// A person without field names: the name first, then the age.
#[derive(Clone, Copy, Debug, PartialEq, Eq, Hash)]
pub struct AnonPerson<'a>(pub &'a str, pub u32);

/// Where somebody lives, by street number.
#[derive(Clone, Debug, PartialEq, Eq)]
pub struct Address {
    pub street: u32,
}

/// Somebody known only by an address.
#[derive(Clone, Debug, PartialEq, Eq)]
pub struct Resident {
    pub address: Address,
}

/// The four points of the compass.
#[derive(Clone, Copy, Debug, Default, PartialEq, Eq, Hash, Structural)]
pub enum Direction {
    #[default]
    North,
    South,
    East,
    West,
}

impl Direction {
    /// Whether this direction is north, found by matching.
    pub fn is_north(&self) -> (north: bool)
        ensures
            north <==> *self == Direction::North,
    {
        match self {
            Direction::North => true,
            _ => false,
        }
    }
}

/// Whether `d` is north, found by comparing.
pub fn is_north(d: Direction) -> (north: bool)
    ensures
        north <==> d == Direction::North,
{
    d == Direction::North
}

/// A number of spaces to move in one direction.
#[derive(Clone, Copy, Debug, PartialEq, Eq, Hash)]
pub enum Movement {
    North(u32),
    South(u32),
    East(u32),
    West(u32),
}

impl Movement {
    /// The number of spaces that this movement covers.
    pub open spec fn distance(self) -> u32 {
        match self {
            Movement::North(n) => n,
            Movement::South(n) => n,
            Movement::East(n) => n,
            Movement::West(n) => n,
        }
    }
}

/// How many spaces `m` moves.
pub fn spaces(m: Movement) -> (n: u32)
    ensures
        n == m.distance(),
{
    match m {
        Movement::North(n) => n,
        Movement::South(n) => n,
        Movement::East(n) => n,
        Movement::West(n) => n,
    }
}

/// Detectives of fiction.
#[derive(Clone, Copy, Debug, PartialEq, Eq, Hash)]
pub enum Detective {
    SherlockHolmes,
    HerculePoirot,
    PhilipMarlowe,
    CAugusteDupin,
}

/// What somebody does for a living.
#[derive(Clone, Copy, Debug, PartialEq, Eq)]
pub enum JobTitle {
    Engineer { level: u32 },
    Manager,
}

/// How strong a character is.
#[derive(Clone, Copy, Debug, PartialEq, Eq)]
pub enum Power {
    Low,
    Medium,
    High,
}

/// A character's class, with the power it has in that class.
#[derive(Clone, Copy, Debug, PartialEq, Eq)]
pub enum CharacterClass {
    Fighter { power: Power },
    Thief { power: Power },
    Wizard { power: Power },
}

/// Whether `c` is a thief of high power.
pub fn is_high_powered_thief(c: CharacterClass) -> (yes: bool)
    ensures
        yes <==> c == (CharacterClass::Thief { power: Power::High }),
{
    match c {
        CharacterClass::Thief { power: Power::High } => true,
        _ => false,
    }
}

/// Two values side by side, each of its own type.
#[derive(Debug, PartialEq, Eq)]
pub struct Pair<A, B> {
    pub a: A,
    pub b: B,
}

/// A value of one type or of another.
#[derive(Debug, PartialEq, Eq)]
pub enum Either<A, B> {
    Left(A),
    Right(B),
}

} // verus!
