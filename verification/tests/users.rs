use intro_rust::users::{TestUserRepo, User, UserRepo};

fn test_data() -> Vec<User> {
    vec![
        User {
            id: 1,
            name: "Sherlock Holmes".to_string(),
        },
        User {
            id: 2,
            name: "John Watson".to_string(),
        },
        User {
            id: 3,
            name: "Mycroft Holmes".to_string(),
        },
    ]
}

#[test]
fn async_trait_example() {
    let test_data = test_data();

    let test_repo = TestUserRepo {
        user_map: test_data.iter().map(|u| (u.id, u.clone())).collect(),
    };

    let user = test_repo.find_by_id(2).unwrap();

    assert_eq!(user.name, "John Watson");
}

#[test]
fn a_user_that_is_not_known_is_not_found() {
    let test_repo = TestUserRepo::new(&test_data());

    assert!(test_repo.find_by_id(4).is_none());
    assert!(test_repo.find_by_id(0).is_none());
    assert!(test_repo.find_by_id(-1).is_none());
    assert_eq!(test_repo.find_by_id(1).unwrap().name, "Sherlock Holmes");
    assert_eq!(test_repo.find_by_id(3).unwrap().id, 3);
    assert!(TestUserRepo::new(&Vec::new()).find_by_id(1).is_none());
}

#[test]
fn of_two_users_with_one_number_the_later_stays() {
    let mut users = test_data();
    users.push(User {
        id: 2,
        name: "Mary Morstan".to_string(),
    });

    let test_repo = TestUserRepo::new(&users);

    assert_eq!(test_repo.user_map.len(), 3);
    assert_eq!(test_repo.find_by_id(2).unwrap().name, "Mary Morstan");
}

#[test]
fn a_copy_of_a_user_is_the_same_user() {
    let user = User {
        id: 7,
        name: "Irene Adler".to_string(),
    };
    let copy = user.clone();
    assert_eq!(copy.id, 7);
    assert_eq!(copy.name, "Irene Adler");
}
