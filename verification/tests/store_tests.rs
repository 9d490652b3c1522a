use file_visibility::model::{CreateFile, CreateUser, StoreError, UpdateFile};
use file_visibility::store::Store;

fn store_with_user(id: u128, name: &str, mail: &str) -> Store {
    let mut st = Store::new();
    let cu = CreateUser {
        user_name: String::from(name),
        mail: String::from(mail),
    };
    let r = st.create_user_with_id(id, &cu);
    assert!(r.is_ok());
    st
}

fn file_body(fullname: &str, owner: u128, downloadable: bool, public: bool) -> CreateFile {
    CreateFile {
        fullname: String::from(fullname),
        sizebytes: 1024,
        owner_user_id: owner,
        is_downloadable: downloadable,
        is_public: public,
    }
}

#[test]
fn create_then_get_returns_the_record() {
    let mut st = store_with_user(1, "alice", "alice@example.org");
    let body = file_body("part.stl", 1, true, false);
    let created = st.create_file_with_id(10, 777, &body).unwrap();
    assert_eq!(created.id, 10);
    assert_eq!(created.fullname, "part.stl");
    assert_eq!(created.created, 777);
    assert_eq!(created.sizebytes, 1024);
    assert_eq!(created.downloads, 0);
    assert_eq!(created.average_rating, 0);
    assert!(created.is_downloadable);
    assert!(!created.is_public);

    let fetched = st.get_file(10).unwrap();
    assert_eq!(fetched.id, 10);
    assert_eq!(fetched.fullname, "part.stl");
    assert_eq!(fetched.downloads, 0);
    assert_eq!(fetched.average_rating, 0);

    // The owner permission row was inserted in the same step.
    assert_eq!(st.perms.len(), 1);
    assert_eq!(st.perms[0].file_id, 10);
    assert_eq!(st.perms[0].user_account_id, 1);
    assert_eq!(st.perms[0].role, file_visibility::model::Role::Owner);
}

#[test]
fn create_with_unknown_owner_is_invalid_reference() {
    let mut st = store_with_user(1, "alice", "alice@example.org");
    let body = file_body("part.stl", 99, true, false);
    let r = st.create_file_with_id(10, 0, &body);
    assert_eq!(r.unwrap_err(), StoreError::InvalidReference);
    // Nothing was inserted.
    assert!(st.files.is_empty());
    assert!(st.perms.is_empty());
}

#[test]
fn create_with_taken_fullname_is_duplicate_key() {
    let mut st = store_with_user(1, "alice", "alice@example.org");
    let body = file_body("part.stl", 1, true, false);
    st.create_file_with_id(10, 0, &body).unwrap();
    let again = file_body("part.stl", 1, false, true);
    let r = st.create_file_with_id(11, 0, &again);
    assert_eq!(r.unwrap_err(), StoreError::DuplicateKey);
}

#[test]
fn create_with_taken_id_is_duplicate_key() {
    let mut st = store_with_user(1, "alice", "alice@example.org");
    st.create_file_with_id(10, 0, &file_body("a.stl", 1, true, false))
        .unwrap();
    let r = st.create_file_with_id(10, 0, &file_body("b.stl", 1, true, false));
    assert_eq!(r.unwrap_err(), StoreError::DuplicateKey);
}

#[test]
fn create_with_fresh_id_works_end_to_end() {
    let mut st = store_with_user(1, "alice", "alice@example.org");
    let created = st.create_file(&file_body("fresh.stl", 1, false, true)).unwrap();
    assert_eq!(created.fullname, "fresh.stl");
    assert_eq!(created.downloads, 0);
    let fetched = st.get_file(created.id).unwrap();
    assert_eq!(fetched.fullname, "fresh.stl");
}

#[test]
fn update_sets_only_the_present_fields() {
    let mut st = store_with_user(1, "alice", "alice@example.org");
    st.create_file_with_id(10, 777, &file_body("part.stl", 1, true, false))
        .unwrap();
    let patch = UpdateFile {
        fullname: None,
        downloads: Some(5),
        average_rating: None,
    };
    let updated = st.update_file(10, &patch).unwrap();
    assert_eq!(updated.downloads, 5);
    assert_eq!(updated.fullname, "part.stl");
    assert_eq!(updated.average_rating, 0);
    assert_eq!(updated.created, 777);
    let fetched = st.get_file(10).unwrap();
    assert_eq!(fetched.downloads, 5);
}

#[test]
fn update_missing_file_is_not_found() {
    let mut st = store_with_user(1, "alice", "alice@example.org");
    let patch = UpdateFile {
        fullname: None,
        downloads: Some(5),
        average_rating: None,
    };
    let r = st.update_file(42, &patch);
    assert_eq!(r.unwrap_err(), StoreError::NotFound);
}

#[test]
fn update_to_taken_fullname_is_duplicate_key() {
    let mut st = store_with_user(1, "alice", "alice@example.org");
    st.create_file_with_id(10, 0, &file_body("a.stl", 1, true, false))
        .unwrap();
    st.create_file_with_id(11, 0, &file_body("b.stl", 1, true, false))
        .unwrap();
    let patch = UpdateFile {
        fullname: Some(String::from("a.stl")),
        downloads: None,
        average_rating: None,
    };
    let r = st.update_file(11, &patch);
    assert_eq!(r.unwrap_err(), StoreError::DuplicateKey);
    // Renaming a file to its own current name stays allowed.
    let same = UpdateFile {
        fullname: Some(String::from("b.stl")),
        downloads: None,
        average_rating: None,
    };
    assert!(st.update_file(11, &same).is_ok());
}

#[test]
fn delete_then_get_is_not_found_and_twice_is_not_found() {
    let mut st = store_with_user(1, "alice", "alice@example.org");
    st.create_file_with_id(10, 0, &file_body("part.stl", 1, true, false))
        .unwrap();
    assert!(st.delete_file(10).is_ok());
    assert_eq!(st.get_file(10).unwrap_err(), StoreError::NotFound);
    assert_eq!(st.delete_file(10).unwrap_err(), StoreError::NotFound);
    // The dependent permission rows went with the file.
    assert!(st.perms.is_empty());
}

#[test]
fn get_missing_file_is_not_found() {
    let st = Store::new();
    assert_eq!(st.get_file(7).unwrap_err(), StoreError::NotFound);
}

#[test]
fn owner_lookup_resolves_the_owner_name() {
    let mut st = store_with_user(1, "alice", "alice@example.org");
    st.create_file_with_id(10, 0, &file_body("part.stl", 1, true, false))
        .unwrap();
    assert_eq!(st.owner_lookup(10).unwrap(), "alice");
    assert_eq!(st.owner_lookup(11).unwrap_err(), StoreError::NotFound);
}
