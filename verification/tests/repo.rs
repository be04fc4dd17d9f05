use auth_core::entities::{UserFetched, UserRegister};
use auth_core::repo::{IUserRepo, InMemoryUserRepo};

fn record(id: i32, name: &str) -> UserFetched {
    UserFetched {
        id,
        name: String::from(name),
        password: String::from("pass"),
    }
}

#[test]
fn from_users_rejects_duplicate_names() {
    let seeded = InMemoryUserRepo::from_users(vec![record(1, "nk"), record(2, "nk")]);
    assert!(seeded.is_none());
}

#[test]
fn from_users_rejects_exhausted_id_space() {
    let seeded = InMemoryUserRepo::from_users(vec![record(i32::MAX, "nk")]);
    assert!(seeded.is_none());
}

#[test]
fn from_users_keeps_the_records() {
    let repo = InMemoryUserRepo::from_users(vec![record(7, "a"), record(9, "b")]).unwrap();

    assert!(repo.name_exists("a").unwrap());
    assert!(repo.name_exists("b").unwrap());
    assert!(!repo.name_exists("c").unwrap());

    let a = repo.fetch_by_name("a").unwrap();
    assert_eq!(a.id, 7);
    assert_eq!(a.name, "a");

    let b = repo.fetch_by_id(9).unwrap().unwrap();
    assert_eq!(b.name, "b");
}

#[test]
fn fetch_by_id_absent_is_none() {
    let repo = InMemoryUserRepo::from_users(vec![record(7, "a")]).unwrap();
    assert!(repo.fetch_by_id(8).unwrap().is_none());
}

#[test]
fn register_assigns_fresh_ids() {
    let mut repo = InMemoryUserRepo::from_users(vec![record(7, "a")]).unwrap();

    repo.register(&UserRegister {
        name: String::from("b"),
        password: String::from("pb"),
    })
    .unwrap();
    repo.register(&UserRegister {
        name: String::from("c"),
        password: String::from("pc"),
    })
    .unwrap();

    let a = repo.fetch_by_name("a").unwrap();
    let b = repo.fetch_by_name("b").unwrap();
    let c = repo.fetch_by_name("c").unwrap();

    assert_ne!(a.id, b.id);
    assert_ne!(a.id, c.id);
    assert_ne!(b.id, c.id);
    assert_eq!(b.password, "pb");
    assert_eq!(c.password, "pc");

    assert_eq!(repo.fetch_by_id(b.id).unwrap().unwrap().name, "b");
}

#[test]
fn empty_repo_has_nothing() {
    let repo = InMemoryUserRepo::new();
    assert!(!repo.name_exists("nk").unwrap());
    assert!(repo.fetch_by_id(1).unwrap().is_none());
}
