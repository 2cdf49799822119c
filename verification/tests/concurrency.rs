use intro_rust::concurrency::{age_of, celebrate, Address, Resident};
use intro_rust::hello::greeting;
use intro_rust::person::Person;

fn detectives() -> Vec<Person> {
    vec![
        Person {
            name: "Sherlock Holmes".to_string(),
            age: 64,
        },
        Person {
            name: "Hercule Poirot".to_string(),
            age: 54,
        },
    ]
}

#[test]
fn the_ages_of_two_detectives_add_up() {
    let database = detectives();

    let sum = age_of(&database, 0) + age_of(&database, 1);

    assert_eq!(sum, 118);
}

#[test]
fn a_birthday_changes_one_detective_only() {
    let mut database = detectives();

    let sherlock = age_of(&database, 0);
    let poirot = celebrate(&mut database, 1);

    assert_eq!(sherlock + poirot, 119);
    assert_eq!(
        database,
        vec![
            Person {
                name: "Sherlock Holmes".to_string(),
                age: 64,
            },
            Person {
                name: "Hercule Poirot".to_string(),
                age: 55,
            },
        ]
    );
}

#[test]
fn a_resident_who_moves_keeps_everything_but_the_city() {
    let mut sherlock = Resident {
        name: "Sherlock Holmes".to_string(),
        age: 64,
        address: Address {
            street: "221B Baker Street".to_string(),
            city: "London".to_string(),
        },
    };

    sherlock.move_to("New York".to_string());

    assert_eq!(
        sherlock,
        Resident {
            name: "Sherlock Holmes".to_string(),
            age: 64,
            address: Address {
                street: "221B Baker Street".to_string(),
                city: "New York".to_string(),
            },
        }
    );
}

#[test]
fn the_greeting_names_whoever_is_greeted() {
    assert_eq!(greeting("warp"), "Hello, warp!");
    assert_eq!(greeting(""), "Hello, !");
    assert_eq!(greeting("Zoë & co"), "Hello, Zoë & co!");
}
