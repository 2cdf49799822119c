//! Behaviour shared by several types: what each type must provide, what it
//! gets for free, and how a function asks for it.

use vstd::prelude::*;
use vstd::string::*;

verus! {

/// Anything that goes by a name and may have something to say.
pub trait Animal {
    /// The name that `name` answers with.
    spec fn name_spec(&self) -> Seq<char>;

    /// The sentence that `talk` answers with.
    spec fn sentence(&self) -> Seq<char>;

    fn name(&self) -> (name: &'static str)
        ensures
            name@ == self.name_spec(),
    ;

    /// What this animal says when asked to talk.
    fn talk(&self) -> (said: String)
        ensures
            said@ == self.sentence(),
    ;
}

/// What an animal answers that has no words of its own: that it cannot
/// talk. A type may use this as its `talk`.
pub fn cannot_talk<T: Animal>(animal: &T) -> (said: String)
    ensures
        said@ == animal.name_spec() + " cannot talk"@,
{
    let mut said = String::from_str(animal.name());
    said.append(" cannot talk");
    said
}

/// A human being, who can talk.
pub struct Human {
    pub name: &'static str,
}

impl Animal for Human {
    open spec fn name_spec(&self) -> Seq<char> {
        self.name@
    }

    open spec fn sentence(&self) -> Seq<char> {
        self.name@ + " says hello"@
    }

    fn name(&self) -> (name: &'static str) {
        self.name
    }

    fn talk(&self) -> (said: String) {
        let mut said = String::from_str(self.name);
        said.append(" says hello");
        said
    }
}

/// Anything that hops.
pub trait Hopper {
    /// What is reported of a hop.
    spec fn hop_spec(&self) -> Seq<char>;

    /// Hops, and reports it.
    fn hop(&self) -> (report: String)
        ensures
            report@ == self.hop_spec(),
    ;
}

/// Anything that swims.
pub trait Swimmer {
    /// What is reported of a swim.
    spec fn swim_spec(&self) -> Seq<char>;

    /// Swims, and reports it.
    fn swim(&self) -> (report: String)
        ensures
            report@ == self.swim_spec(),
    ;
}

/// Anything that quacks.
pub trait DuckLike {
    /// What is reported of a quack.
    spec fn quack_spec(&self) -> Seq<char>;

    /// Quacks, and reports it.
    fn quack(&self) -> (report: String)
        ensures
            report@ == self.quack_spec(),
    ;
}

/// A rabbit, which hops.
pub struct Rabbit {
    pub name: &'static str,
}

impl Hopper for Rabbit {
    open spec fn hop_spec(&self) -> Seq<char> {
        self.name@ + " is hopping"@
    }

    fn hop(&self) -> (report: String) {
        let mut report = String::from_str(self.name);
        report.append(" is hopping");
        report
    }
}

/// A duck, which hops, swims and quacks.
pub struct Duck {
    pub name: &'static str,
}

impl Hopper for Duck {
    open spec fn hop_spec(&self) -> Seq<char> {
        self.name@ + " is hopping"@
    }

    fn hop(&self) -> (report: String) {
        let mut report = String::from_str(self.name);
        report.append(" is hopping");
        report
    }
}

impl Swimmer for Duck {
    open spec fn swim_spec(&self) -> Seq<char> {
        self.name@ + " is swimming"@
    }

    fn swim(&self) -> (report: String) {
        let mut report = String::from_str(self.name);
        report.append(" is swimming");
        report
    }
}

impl DuckLike for Duck {
    open spec fn quack_spec(&self) -> Seq<char> {
        self.name@ + " is quacking"@
    }

    fn quack(&self) -> (report: String) {
        let mut report = String::from_str(self.name);
        report.append(" is quacking");
        report
    }
}

/// A platypus, which is no duck and quacks like one.
pub struct Platypus {
    pub name: &'static str,
}

impl DuckLike for Platypus {
    open spec fn quack_spec(&self) -> Seq<char> {
        self.name@ + " is quacking"@
    }

    fn quack(&self) -> (report: String) {
        let mut report = String::from_str(self.name);
        report.append(" is quacking");
        report
    }
}

/// Makes anything that hops hop, and hands on its report.
pub fn hop<T: Hopper>(hopper: T) -> (report: String)
    ensures
        report@ == hopper.hop_spec(),
{
    hopper.hop()
}

/// Makes anything that both hops and swims do the one and then the other,
/// and hands on the two reports in that order.
pub fn hop_and_swim<T>(animal: T) -> (reports: (String, String)) where T: Hopper + Swimmer
    ensures
        reports.0@ == animal.hop_spec(),
        reports.1@ == animal.swim_spec(),
{
    let hopped = animal.hop();
    let swum = animal.swim();
    (hopped, swum)
}

/// Makes anything that quacks quack, and hands on its report.
pub fn make_duck_quack(duck: impl DuckLike) -> (report: String)
    ensures
        report@ == duck.quack_spec(),
{
    duck.quack()
}

/// Something that quacks, by the given name; what it is stays hidden.
pub fn create_some_duck(name: &'static str) -> (duck: impl DuckLike)
    ensures
        duck.quack_spec() == name@ + " is quacking"@,
{
    Duck { name }
}

/// A function from `In`, given as a value.
pub trait Function<In> {
    /// What a call gives.
    type Out;

    /// Whether the function may be called on `input`.
    spec fn defined(&self, input: In) -> bool;

    /// What the function gives for `input`.
    spec fn value(&self, input: In) -> Self::Out;

    fn call(&self, input: In) -> (output: Self::Out)
        requires
            self.defined(input),
        ensures
            output == self.value(input),
    ;
}

/// The function that adds a fixed amount to a number.
pub struct Add {
    pub amount: i32,
}

impl Function<i32> for Add {
    type Out = i32;

    open spec fn defined(&self, input: i32) -> bool {
        i32::MIN <= input + self.amount <= i32::MAX
    }

    open spec fn value(&self, input: i32) -> i32 {
        (input + self.amount) as i32
    }

    fn call(&self, input: i32) -> (output: i32) {
        input + self.amount
    }
}

} // verus!
