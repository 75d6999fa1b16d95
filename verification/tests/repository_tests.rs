use yukino::repository::Repository;

#[test]
fn insert_get_and_drop() {
    let mut repo: Repository<String> = Repository::create();
    assert_eq!(repo.len(), 0);
    let a = repo.insert_entity("alice".to_string());
    let b = repo.insert_entity("bob".to_string());
    assert_ne!(a, b);
    assert_eq!(repo.len(), 2);
    assert_eq!(repo.get_entity(&a), Some("alice".to_string()));
    assert_eq!(repo.get_entity(&b), Some("bob".to_string()));
    assert_eq!(repo.drop_entity(&a), Some("alice".to_string()));
    assert_eq!(repo.get_entity(&a), None);
    assert_eq!(repo.drop_entity(&a), None);
    assert_eq!(repo.len(), 1);
}

#[test]
fn ids_are_fresh() {
    let mut repo: Repository<u8> = Repository::create();
    let mut ids = Vec::new();
    for i in 0..50u8 {
        ids.push(repo.insert_entity(i));
    }
    let mut sorted = ids.clone();
    sorted.sort();
    sorted.dedup();
    assert_eq!(sorted.len(), 50);
    for (i, id) in ids.iter().enumerate() {
        assert_eq!(repo.get_entity(id), Some(i as u8));
    }
}
