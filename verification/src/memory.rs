//! Values on the stack and on the heap, and what may be done to a value
//! through a shared or a unique reference to it.

use crate::person::Person;
use vstd::prelude::*;
use vstd::string::*;

verus! {

/// The bytes that `n` nested calls keep on the stack, each call holding one
/// `i32`.
pub fn grow_stack(n: i32) -> (bytes: i32)
    requires
        4 * n <= i32::MAX,
    ensures
        bytes == if n <= 0 {
            0
        } else {
            4 * n
        },
    decreases n,
{
    broadcast use vstd::layout::layout_of_primitives;

    if n <= 0 {
        return 0;
    } else {
        let x = std::mem::size_of::<i32>() as i32;
        let y = grow_stack(n - 1);

        x + y
    }
}

/// The bytes that `n` nested calls keep on the heap, each call holding one
/// boxed `i32`.
pub fn grow_heap(n: i32) -> (bytes: i32)
    requires
        4 * n <= i32::MAX,
    ensures
        bytes == if n <= 0 {
            0
        } else {
            4 * n
        },
    decreases n,
{
    broadcast use vstd::layout::layout_of_primitives;

    if n <= 0 {
        return 0;
    } else {
        let x = Box::new(std::mem::size_of::<i32>() as i32);
        let y = grow_heap(n - 1);

        *x + y
    }
}

/// A point of the plane with whole coordinates.
#[derive(Clone, Debug, PartialEq)]
pub struct Point {
    pub x: i32,
    pub y: i32,
}

/// The point one step to the right of `p` and one step above it.
pub fn transform_point(p: Point) -> (q: Point)
    requires
        p.x < i32::MAX,
        p.y < i32::MAX,
    ensures
        q.x == p.x + 1,
        q.y == p.y + 1,
{
    Point { x: p.x + 1, y: p.y + 1 }
}

/// The point one step to the right of `p` and one step above it, on the
/// heap.
pub fn transform_point_boxed(p: Point) -> (q: Box<Point>)
    requires
        p.x < i32::MAX,
        p.y < i32::MAX,
    ensures
        q.x == p.x + 1,
        q.y == p.y + 1,
{
    Box::new(Point { x: p.x + 1, y: p.y + 1 })
}

/// Moves `p` to the right by `steps`, where it stands.
pub fn move_right(p: &mut Point, steps: i32)
    requires
        i32::MIN <= old(p).x + steps <= i32::MAX,
    ensures
        final(p).x == old(p).x + steps,
        final(p).y == old(p).y,
{
    p.x = p.x + steps;
}

/// What can be asked of anything that is like a person.
pub trait PersonLike {
    /// The name that `name` answers with.
    spec fn name_spec(&self) -> Seq<char>;

    /// The age that `age` answers with.
    spec fn age_spec(&self) -> int;

    fn name(&self) -> (name: String)
        ensures
            name@ == self.name_spec(),
    ;

    fn age(&self) -> (age: i32)
        ensures
            age == self.age_spec(),
    ;
}

impl PersonLike for Person {
    open spec fn name_spec(&self) -> Seq<char> {
        self.name@
    }

    open spec fn age_spec(&self) -> int {
        self.age as int
    }

    fn name(&self) -> (name: String) {
        self.name.clone()
    }

    fn age(&self) -> (age: i32) {
        self.age
    }
}

/// A person of the given name and age, behind a pointer to something that is
/// like a person.
pub fn create_person(name: String, age: i32) -> (person: impl PersonLike)
    ensures
        person.name_spec() == name@,
        person.age_spec() == age,
{
    Person { name, age }
}

/// Makes `person` a year older.
pub fn increment_age(person: &mut Person)
    requires
        old(person).age < i32::MAX,
    ensures
        final(person).age == old(person).age + 1,
        final(person).name == old(person).name,
{
    person.age += 1;
}

/// What is added to the name of somebody who has become the elder of the
/// name.
pub open spec fn senior() -> Seq<char> {
    " Senior"@
}

/// Makes `person` a year older and adds the title of the elder to `name`,
/// which is no part of `person`.
pub fn modify_age_and_name(name: &mut String, person: &mut Person)
    requires
        old(person).age < i32::MAX,
    ensures
        final(name)@ == old(name)@ + senior(),
        final(person).age == old(person).age + 1,
        final(person).name == old(person).name,
{
    name.append(" Senior");
    person.age += 1;
}

/// The value behind a reference to a reference to one.
pub fn shared_pointer_to_shared_pointer() -> (value: i32)
    ensures
        value == 1,
{
    let x: i32 = 1;
    let y = &x;
    let z = &y;

    **z
}

/// The reference it is given, with the lifetime written out.
pub fn identity_explicit<'a>(x: &'a i32) -> (y: &'a i32)
    ensures
        *y == *x,
{
    x
}

/// The reference it is given, with the lifetime left to the compiler.
pub fn identity_implicit(x: &i32) -> (y: &i32)
    ensures
        *y == *x,
{
    x
}

/// The reference to the larger of two numbers; to the second where they are
/// equal.
pub fn max_explicit<'a>(x: &'a i32, y: &'a i32) -> (larger: &'a i32)
    ensures
        *larger == if *x > *y {
            *x
        } else {
            *y
        },
{
    if *x > *y {
        x
    } else {
        y
    }
}

} // verus!
