use std::cell::{Cell, RefCell};
use std::rc::Rc;
use intro_rust::concurrency::{Address, Resident};
use intro_rust::memory::{
    create_person, grow_heap, grow_stack, identity_explicit, identity_implicit, increment_age,
    max_explicit, modify_age_and_name, move_right, shared_pointer_to_shared_pointer,
    transform_point, transform_point_boxed, PersonLike, Point,
};
use intro_rust::once::first_write_wins;
use intro_rust::person::Person;
use intro_rust::tree::{advance, Tree, TreeIterator};
use intro_rust::types::Person as NamedPerson;

fn sherlock() -> Person {
    Person {
        name: "Sherlock Holmes".to_string(),
        age: 64,
    }
}

fn sherlock_at_home() -> Resident {
    Resident {
        name: "Sherlock Holmes".to_string(),
        age: 64,
        address: Address {
            street: "221B Baker Street".to_string(),
            city: "London".to_string(),
        },
    }
}

#[test]
fn stack_size() {
    assert_eq!(grow_stack(10), 40 as i32);
}

#[test]
fn copy_struct_using_stack() {
    let p1 = Point { x: 1, y: 2 };
    let p2 = transform_point(p1);

    assert_eq!(p2, Point { x: 2, y: 3 });
    // Nothing of this is on the heap.
    assert_eq!(0, 0 as i32);
}

#[test]
fn heap_size() {
    assert_eq!(grow_heap(10), 40 as i32);
}

#[test]
fn cannot_return_unsized() {
    let sherlock = create_person("Sherlock Holmes".to_owned(), 64);

    assert_eq!(sherlock.name() as String, "Sherlock Holmes");
    assert_eq!(sherlock.age(), 64);
}

#[test]
fn mutable_variable_size() {
    let mut person = sherlock();

    increment_age(&mut person);

    assert_eq!(65, person.age);
}

#[test]
fn shared_pointer_size() {
    let sherlock = sherlock();

    let sherlock_pointer = &sherlock;

    assert_eq!(sherlock_pointer.age, 64);
    assert_eq!(std::mem::size_of::<&Person>(), 8 as usize);
}

#[test]
fn unique_pointer_size() {
    let mut sherlock = sherlock();

    let sherlock_pointer = &mut sherlock;

    sherlock_pointer.age = 65;

    assert_eq!(sherlock_pointer.age, 65);
    assert_eq!(std::mem::size_of::<&mut Person>(), 8 as usize);
}

#[test]
fn unique_pointer_modify_via_manual_deref() {
    fn transform_point(p: &mut Point) -> () {
        move_right(&mut (*p), 3);
    }

    let mut p1 = Point { x: 1, y: 2 };

    transform_point(&mut p1);

    assert_eq!(p1, Point { x: 4, y: 2 });
}

#[test]
fn unique_pointer_modify_via_auto_deref() {
    fn transform_point(p: &mut Point) -> () {
        move_right(p, 3);
    }

    let mut p1 = Point { x: 1, y: 2 };

    transform_point(&mut p1);

    assert_eq!(p1, Point { x: 4, y: 2 });
}

#[test]
fn unique_pointer_to_pointer_via_auto_deref() {
    let mut detective = sherlock();
    let mut detective_ptr = &mut detective;
    let detective_ptr_ptr = &mut detective_ptr;

    detective_ptr_ptr.birthday();

    assert_eq!(detective.age, 65);
}

#[test]
fn copied_shared_pointer_semantics() {
    let point = Point { x: 1, y: 2 };

    let point_ptr = &point;
    let copied_point_ptr = point_ptr;

    assert_eq!(1, point_ptr.x as i32);
    assert_eq!(1, copied_point_ptr.x);
}

#[test]
fn moved_unique_pointer_semantics() {
    let mut point = Point { x: 1, y: 2 };

    let point_ptr = &mut point;
    let moved_point_ptr = point_ptr;

    move_right(moved_point_ptr, 2);

    assert_eq!(3, point.x);
}

#[test]
fn no_overlapping_unique_pointers() {
    let mut sherlock = sherlock();

    // The name leaves the person while both are changed, and comes back after.
    let mut name = std::mem::take(&mut sherlock.name);
    modify_age_and_name(&mut name, &mut sherlock);
    sherlock.name = name;

    assert_eq!(sherlock.name, "Sherlock Holmes Senior");
    assert_eq!(sherlock.age, 65);
}

#[test]
fn closure_move() {
    let sherlock = sherlock_at_home();

    let age = sherlock.age;

    let move_sherlock = || {
        let mut sherlock2 = sherlock;

        sherlock2.move_to("New York".to_string());

        println!("Sherlock moved to New York!");

        sherlock2
    };

    let moved = move_sherlock();

    assert_eq!(moved.address.city, "New York");
    assert_eq!(age as i32, 64);
}

#[test]
fn closure_borrow() {
    let mut sherlock = sherlock_at_home();

    let borrow_sherlock = &mut sherlock;

    let mut move_sherlock = || {
        borrow_sherlock.move_to("New York".to_string());

        println!("Sherlock moved to New York!");
    };

    move_sherlock();

    let new_home = sherlock.address.city.clone();

    assert_eq!(new_home, "New York".to_string());
}

#[test]
fn box_wrapper() {
    let sherlock = sherlock();

    let sherlock_box = Box::new(sherlock);

    assert_eq!(sherlock_box.age, 64);
    assert_eq!(std::mem::size_of::<Box<Person>>(), 8 as usize);
}

#[test]
fn rc_wrapper() {
    let sherlock = sherlock();

    let sherlock_rc = Rc::new(sherlock);

    let pointer1 = sherlock_rc.clone();
    let pointer2 = sherlock_rc.clone();

    assert_eq!(pointer1.age as i32, pointer2.age as i32);
    assert_eq!(pointer1.age(), 64);
}

#[test]
fn cell_wrapper() {
    let sherlock = NamedPerson {
        name: "Sherlock Holmes",
        age: 64,
    };

    let sherlock_cell = Cell::new(sherlock);

    let pointer1 = &sherlock_cell;
    let pointer2 = &sherlock_cell;

    let original_sherlock: NamedPerson = pointer1.replace(NamedPerson {
        age: 65,
        ..sherlock
    });

    let older_sherlock: NamedPerson = pointer2.replace(NamedPerson {
        age: 66,
        ..sherlock
    });

    assert_eq!(
        original_sherlock,
        NamedPerson {
            name: "Sherlock Holmes",
            age: 64
        }
    );
    assert_eq!(
        older_sherlock,
        NamedPerson {
            name: "Sherlock Holmes",
            age: 65
        }
    );
    assert_eq!(
        sherlock_cell.get(),
        NamedPerson {
            name: "Sherlock Holmes",
            age: 66
        }
    );
}

#[test]
fn ref_cell_wrapper() {
    let sherlock = sherlock();

    let sherlock_ref_cell = RefCell::new(sherlock);

    let pointer1 = &sherlock_ref_cell;
    let pointer2 = &sherlock_ref_cell;

    increment_age(&mut pointer1.borrow_mut());

    increment_age(&mut pointer2.borrow_mut());

    assert_eq!(sherlock_ref_cell.borrow().age, 66);
}

#[test]
fn once_cell_wrapper() {
    let first = sherlock();
    let second = Person {
        name: "Sherlock Holmes".to_string(),
        age: 65,
    };

    let kept = first_write_wins(first, second);

    assert_eq!(kept.age, 64);
}

#[test]
fn lifetime_elision() {
    let x = 1;

    assert_eq!(identity_explicit(&x), identity_implicit(&x));
    assert_eq!(identity_explicit(&x), &1);
}

#[test]
fn lifetime_max() {
    let x = 1;
    let y = 2;

    assert_eq!(max_explicit(&x, &y), &y);
}

#[test]
fn struct_lifetime_simple() {
    let name = String::from("Sherlock Holmes");

    let sherlock = NamedPerson {
        name: name.as_str(),
        age: 64,
    };

    assert_eq!(sherlock.name, "Sherlock Holmes");
}

#[test]
fn struct_lifetime_complex() {
    let tree = Tree::Branch(
        Box::new(Tree::Leaf(1)),
        Box::new(Tree::Branch(
            Box::new(Tree::Leaf(2)),
            Box::new(Tree::Leaf(3)),
        )),
    );

    let mut iterator = TreeIterator {
        current: Some(&tree),
        todo: Vec::new(),
    };

    assert_eq!(advance(&mut iterator), Some(&1));
    assert_eq!(advance(&mut iterator), Some(&2));
    assert_eq!(advance(&mut iterator), Some(&3));
    assert_eq!(advance(&mut iterator), None);
}

#[test]
fn a_pointer_to_a_pointer_reads_the_value() {
    assert_eq!(shared_pointer_to_shared_pointer(), 1);
}

#[test]
fn growing_by_nothing_takes_nothing() {
    assert_eq!(grow_stack(0), 0);
    assert_eq!(grow_stack(-5), 0);
    assert_eq!(grow_stack(1), 4);
    assert_eq!(grow_heap(0), 0);
    assert_eq!(grow_heap(-5), 0);
    assert_eq!(grow_heap(3), 12);
}

#[test]
fn a_boxed_point_moves_like_a_plain_one() {
    let boxed = transform_point_boxed(Point { x: 1, y: 2 });
    assert_eq!(*boxed, transform_point(Point { x: 1, y: 2 }));
    assert_eq!(*boxed, Point { x: 2, y: 3 });
}

#[test]
fn move_right_may_go_left() {
    let mut p = Point { x: 1, y: 2 };
    move_right(&mut p, -5);
    assert_eq!(p, Point { x: -4, y: 2 });
    move_right(&mut p, 0);
    assert_eq!(p, Point { x: -4, y: 2 });
}

#[test]
fn max_of_two_numbers_in_either_order() {
    let x = 7;
    let y = 7;
    assert_eq!(*max_explicit(&x, &y), 7);
    let z = 9;
    assert_eq!(*max_explicit(&z, &y), 9);
    assert_eq!(*max_explicit(&y, &z), 9);
    let low = i32::MIN;
    assert_eq!(*max_explicit(&low, &y), 7);
}

#[test]
fn the_first_written_person_is_kept_whole() {
    let kept = first_write_wins(
        Person {
            name: "Mycroft".to_string(),
            age: 71,
        },
        sherlock(),
    );
    assert_eq!(
        kept,
        Person {
            name: "Mycroft".to_string(),
            age: 71
        }
    );
}
