use file_visibility::model::{
    CreateFile, CreateFilePermissionSchema, CreateUser, Role, StoreError,
};
use file_visibility::pagination::FilterOptions;
use file_visibility::store::Store;

fn add_user(st: &mut Store, id: u128, name: &str, mail: &str) {
    let cu = CreateUser {
        user_name: String::from(name),
        mail: String::from(mail),
    };
    st.create_user_with_id(id, &cu).unwrap();
}

fn add_file(st: &mut Store, id: u128, fullname: &str, owner: u128, downloadable: bool, public: bool) {
    let body = CreateFile {
        fullname: String::from(fullname),
        sizebytes: 10,
        owner_user_id: owner,
        is_downloadable: downloadable,
        is_public: public,
    };
    st.create_file_with_id(id, 0, &body).unwrap();
}

fn grant(st: &mut Store, user: u128, role: Role, file: u128) {
    let g = CreateFilePermissionSchema {
        user_account_pk: user,
        roles_pk: role,
        files_pk: file,
    };
    st.add_permission(&g).unwrap();
}

#[test]
fn public_listing_shows_public_files_with_owner_and_stored_flag() {
    let mut st = Store::new();
    add_user(&mut st, 1, "alice", "alice@example.org");
    add_file(&mut st, 10, "pub.stl", 1, true, true);
    add_file(&mut st, 11, "priv.stl", 1, true, false);
    let rows = st.public_listing(1, 10);
    assert_eq!(rows.len(), 1);
    assert_eq!(rows[0].id, 10);
    assert_eq!(rows[0].owner, "alice");
    assert!(rows[0].is_downloadable);
    assert_eq!(rows[0].fullname, "pub.stl");
}

#[test]
fn public_listing_of_empty_store_is_empty() {
    let st = Store::new();
    assert!(st.public_listing(1, 10).is_empty());
}

#[test]
fn private_listing_includes_exactly_the_viewers_files() {
    let mut st = Store::new();
    add_user(&mut st, 1, "alice", "alice@example.org");
    add_user(&mut st, 2, "bob", "bob@example.org");
    add_user(&mut st, 3, "carol", "carol@example.org");
    add_file(&mut st, 10, "shared.stl", 1, true, false);
    add_file(&mut st, 11, "hidden.stl", 1, true, false);
    grant(&mut st, 2, Role::View, 10);

    // Bob sees the shared file, not downloadable with a view-only role.
    let bob_rows = st.private_listing(2, 1, 10);
    assert_eq!(bob_rows.len(), 1);
    assert_eq!(bob_rows[0].id, 10);
    assert_eq!(bob_rows[0].owner, "alice");
    assert!(!bob_rows[0].is_downloadable);

    // Carol holds no permission row, so she sees nothing.
    assert!(st.private_listing(3, 1, 10).is_empty());

    // Alice, the owner, sees both files as downloadable.
    let alice_rows = st.private_listing(1, 1, 10);
    assert_eq!(alice_rows.len(), 2);
    assert!(alice_rows.iter().all(|r| r.is_downloadable));
}

#[test]
fn private_listing_download_role_grants_downloadability() {
    let mut st = Store::new();
    add_user(&mut st, 1, "alice", "alice@example.org");
    add_user(&mut st, 2, "bob", "bob@example.org");
    add_file(&mut st, 10, "shared.stl", 1, false, false);
    grant(&mut st, 2, Role::Download, 10);
    let rows = st.private_listing(2, 1, 10);
    assert_eq!(rows.len(), 1);
    assert!(rows[0].is_downloadable);
}

#[test]
fn private_listing_excludes_public_files() {
    // Owner creates a public, non-downloadable file; anonymous public
    // listing shows it with the stored flag; a download grant added later
    // changes nothing about the private listing, because the file is
    // public: the modes stay exclusive.
    let mut st = Store::new();
    add_user(&mut st, 1, "u", "u@example.org");
    add_user(&mut st, 2, "u2", "u2@example.org");
    add_file(&mut st, 10, "f.stl", 1, false, true);

    let pub_rows = st.public_listing(1, 10);
    assert_eq!(pub_rows.len(), 1);
    assert_eq!(pub_rows[0].id, 10);
    assert!(!pub_rows[0].is_downloadable);

    grant(&mut st, 2, Role::Download, 10);
    assert!(st.private_listing(2, 1, 10).is_empty());
    let pub_again = st.public_listing(1, 10);
    assert_eq!(pub_again.len(), 1);
    assert!(!pub_again[0].is_downloadable);
}

#[test]
fn by_user_listing_includes_singly_permissioned_files_for_everyone() {
    let mut st = Store::new();
    add_user(&mut st, 1, "alice", "alice@example.org");
    add_user(&mut st, 2, "bob", "bob@example.org");
    // The file has exactly one permission row (Alice's owner row), so the
    // legacy listing shows it to Bob too, with Alice as owner and no
    // download right for Bob.
    add_file(&mut st, 10, "float.stl", 1, true, false);
    let rows = st.by_user_id_or_orphan(2, 1, 10);
    assert_eq!(rows.len(), 1);
    assert_eq!(rows[0].id, 10);
    assert_eq!(rows[0].owner, "alice");
    assert!(!rows[0].is_downloadable);

    // A second permission row ends the fallback: Bob still holds no row,
    // so the file disappears from his legacy listing.
    grant(&mut st, 2, Role::View, 10);
    let rows2 = st.by_user_id_or_orphan(2, 1, 10);
    assert_eq!(rows2.len(), 1); // now via Bob's own row
    assert!(!rows2[0].is_downloadable);
    let mut st2 = Store::new();
    add_user(&mut st2, 1, "alice", "alice@example.org");
    add_user(&mut st2, 2, "bob", "bob@example.org");
    add_user(&mut st2, 3, "carol", "carol@example.org");
    add_file(&mut st2, 10, "float.stl", 1, true, false);
    grant(&mut st2, 2, Role::View, 10);
    assert!(st2.by_user_id_or_orphan(3, 1, 10).is_empty());
}

#[test]
fn add_permission_rejects_bad_references_and_duplicates() {
    let mut st = Store::new();
    add_user(&mut st, 1, "alice", "alice@example.org");
    add_user(&mut st, 2, "bob", "bob@example.org");
    add_file(&mut st, 10, "f.stl", 1, true, false);

    let missing_file = CreateFilePermissionSchema {
        user_account_pk: 2,
        roles_pk: Role::View,
        files_pk: 99,
    };
    assert_eq!(
        st.add_permission(&missing_file).unwrap_err(),
        StoreError::InvalidReference
    );

    let missing_user = CreateFilePermissionSchema {
        user_account_pk: 99,
        roles_pk: Role::View,
        files_pk: 10,
    };
    assert_eq!(
        st.add_permission(&missing_user).unwrap_err(),
        StoreError::InvalidReference
    );

    let second_owner = CreateFilePermissionSchema {
        user_account_pk: 2,
        roles_pk: Role::Owner,
        files_pk: 10,
    };
    assert_eq!(
        st.add_permission(&second_owner).unwrap_err(),
        StoreError::DuplicateKey
    );

    grant(&mut st, 2, Role::View, 10);
    let pair_again = CreateFilePermissionSchema {
        user_account_pk: 2,
        roles_pk: Role::Download,
        files_pk: 10,
    };
    assert_eq!(
        st.add_permission(&pair_again).unwrap_err(),
        StoreError::DuplicateKey
    );
}

#[test]
fn pagination_returns_the_requested_window() {
    let mut st = Store::new();
    add_user(&mut st, 1, "alice", "alice@example.org");
    for k in 0..5u32 {
        add_file(
            &mut st,
            100 + k as u128,
            &format!("f{}.stl", k),
            1,
            true,
            true,
        );
    }
    // limit=2, page=2 selects offset 2..4 of the insertion ordering.
    let rows = st.public_listing(2, 2);
    assert_eq!(rows.len(), 2);
    assert_eq!(rows[0].id, 102);
    assert_eq!(rows[1].id, 103);
    // The last page may be shorter.
    let tail = st.public_listing(3, 2);
    assert_eq!(tail.len(), 1);
    assert_eq!(tail[0].id, 104);
    // Beyond the end, the window is empty.
    assert!(st.public_listing(4, 2).is_empty());
}

#[test]
fn zero_and_absent_query_parameters_normalize_to_defaults() {
    let zeroes = FilterOptions {
        page: Some(0),
        limit: Some(0),
    };
    assert_eq!(zeroes.normalize(), (1, 10));
    let absent = FilterOptions {
        page: None,
        limit: None,
    };
    assert_eq!(absent.normalize(), (1, 10));
    let given = FilterOptions {
        page: Some(3),
        limit: Some(7),
    };
    assert_eq!(given.normalize(), (3, 7));
}
