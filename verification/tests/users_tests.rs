use file_visibility::model::{CreateUser, StoreError};
use file_visibility::store::Store;

fn body(name: &str, mail: &str) -> CreateUser {
    CreateUser {
        user_name: String::from(name),
        mail: String::from(mail),
    }
}

#[test]
fn create_user_then_lookup_by_mail() {
    let mut st = Store::new();
    let g = st.create_user_with_id(1, &body("alice", "alice@example.org")).unwrap();
    assert_eq!(g.id, 1);
    let found = st.user_by_mail(&String::from("alice@example.org")).unwrap();
    assert_eq!(found.id, 1);
}

#[test]
fn lookup_of_unknown_mail_is_not_found() {
    let st = Store::new();
    let r = st.user_by_mail(&String::from("nobody@example.org"));
    assert_eq!(r.unwrap_err(), StoreError::NotFound);
}

#[test]
fn duplicate_mail_is_duplicate_key() {
    let mut st = Store::new();
    st.create_user_with_id(1, &body("alice", "a@example.org")).unwrap();
    let r = st.create_user_with_id(2, &body("other", "a@example.org"));
    assert_eq!(r.unwrap_err(), StoreError::DuplicateKey);
    // Nothing was inserted by the failed call.
    assert_eq!(st.users.len(), 1);
    assert_eq!(st.mails.len(), 1);
}

#[test]
fn duplicate_user_id_is_duplicate_key() {
    let mut st = Store::new();
    st.create_user_with_id(1, &body("alice", "a@example.org")).unwrap();
    let r = st.create_user_with_id(1, &body("bob", "b@example.org"));
    assert_eq!(r.unwrap_err(), StoreError::DuplicateKey);
}

#[test]
fn create_user_with_fresh_id_works_end_to_end() {
    let mut st = Store::new();
    let g = st.create_user(&body("alice", "alice@example.org")).unwrap();
    let found = st.user_by_mail(&String::from("alice@example.org")).unwrap();
    assert_eq!(found.id, g.id);
}

#[test]
fn user_listing_paginates_in_stored_order() {
    let mut st = Store::new();
    for k in 0..5u32 {
        st.create_user_with_id(
            (k + 1) as u128,
            &body(&format!("user{}", k), &format!("u{}@example.org", k)),
        )
        .unwrap();
    }
    let page = st.user_listing(2, 2);
    assert_eq!(page.len(), 2);
    assert_eq!(page[0].id, 3);
    assert_eq!(page[1].id, 4);
    assert_eq!(page[0].user_name, "user2");
}
