//! The laws of the visibility engine and the mutation service, stated over
//! the same spec functions the operations' contracts use, and proved once
//! for every store.

use vstd::prelude::*;

use crate::model::{FilePermission, FileResponseModel, Role, UpdateFile};
use crate::mutation::merged;
use crate::store::{
    distinct_file_ids, file_id_pred, find_file, find_owner, find_perm, has_file_id, has_user_id,
    lemma_find_by_characterizes, lemma_find_by_first, owner_name, owner_perm_pred, user_id_pred,
    wf, StoreView,
};
use crate::visibility::{
    private_row, private_rows, private_rows_of, private_visible, public_row, public_rows,
    public_rows_of, public_visible, viewer_can_download,
};

verus! {

/// Under well-formedness, a file with an owner permission row has a
/// resolvable owner name.
pub proof fn lemma_owner_resolves(s: StoreView, file_id: u128)
    requires
        wf(s),
        find_owner(s.perms, file_id) is Some,
    ensures
        owner_name(s, file_id) is Some,
{
    let p = find_owner(s.perms, file_id)->0;
    lemma_find_by_characterizes(s.perms, owner_perm_pred(file_id));
    let k = choose|k: int| 0 <= k < s.perms.len() && #[trigger] s.perms[k] == p;
    assert(has_user_id(s.users, s.perms[k].user_account_id));
    lemma_find_by_characterizes(s.users, user_id_pred(p.user_account_id));
}

/// Every public file whose owner name resolves contributes its row to the
/// rows of any table slice containing it.
proof fn lemma_public_rows_of_complete(s: StoreView, files: Seq<FileResponseModel>, i: int)
    requires
        0 <= i < files.len(),
        public_visible(s, files[i]),
    ensures
        exists|j: int|
            0 <= j < public_rows_of(s, files).len() && #[trigger] public_rows_of(s, files)[j]
                == public_row(files[i], owner_name(s, files[i].id)->0),
    decreases files.len(),
{
    let rows = public_rows_of(s, files);
    if i == files.len() - 1 {
        assert(rows[rows.len() - 1] == public_row(files[i], owner_name(s, files[i].id)->0));
    } else {
        assert(files.drop_last()[i] == files[i]);
        lemma_public_rows_of_complete(s, files.drop_last(), i);
        let j = choose|j: int|
            0 <= j < public_rows_of(s, files.drop_last()).len() && #[trigger] public_rows_of(
                s,
                files.drop_last(),
            )[j] == public_row(files[i], owner_name(s, files[i].id)->0);
        assert(rows[j] == public_row(files[i], owner_name(s, files[i].id)->0));
    }
}

/// Every row of the public listing comes from a public file with a
/// resolvable owner, carrying that file's fields, its owner's name, and
/// its stored downloadability flag.
pub proof fn lemma_public_listing_sound(s: StoreView, j: int)
    requires
        0 <= j < public_rows(s).len(),
    ensures
        exists|i: int|
            0 <= i < s.files.len() && public_visible(s, #[trigger] s.files[i]) && public_rows(
                s,
            )[j] == public_row(s.files[i], owner_name(s, s.files[i].id)->0),
{
    lemma_public_rows_of_sound(s, s.files, j);
}

proof fn lemma_public_rows_of_sound(s: StoreView, files: Seq<FileResponseModel>, j: int)
    requires
        0 <= j < public_rows_of(s, files).len(),
    ensures
        exists|i: int|
            0 <= i < files.len() && public_visible(s, #[trigger] files[i]) && public_rows_of(
                s,
                files,
            )[j] == public_row(files[i], owner_name(s, files[i].id)->0),
    decreases files.len(),
{
    let rows = public_rows_of(s, files);
    let rest = public_rows_of(s, files.drop_last());
    if j < rest.len() {
        lemma_public_rows_of_sound(s, files.drop_last(), j);
        let i = choose|i: int|
            0 <= i < files.drop_last().len() && public_visible(
                s,
                #[trigger] files.drop_last()[i],
            ) && rest[j] == public_row(
                files.drop_last()[i],
                owner_name(s, files.drop_last()[i].id)->0,
            );
        assert(files[i] == files.drop_last()[i]);
        assert(public_visible(s, files[i]) && rows[j] == public_row(
            files[i],
            owner_name(s, files[i].id)->0,
        ));
    } else {
        let i = files.len() - 1;
        assert(public_visible(s, files[i]) && rows[j] == public_row(
            files[i],
            owner_name(s, files[i].id)->0,
        ));
    }
}

/// Every file that is public and has an owner permission row appears in
/// the public listing, with `owner` set to the owner's user name and
/// `is_downloadable` equal to the stored flag.
pub proof fn lemma_public_listing_complete(s: StoreView, i: int)
    requires
        wf(s),
        0 <= i < s.files.len(),
        s.files[i].is_public,
        find_owner(s.perms, s.files[i].id) is Some,
    ensures
        owner_name(s, s.files[i].id) is Some,
        exists|j: int|
            0 <= j < public_rows(s).len() && #[trigger] public_rows(s)[j] == public_row(
                s.files[i],
                owner_name(s, s.files[i].id)->0,
            ),
{
    lemma_owner_resolves(s, s.files[i].id);
    lemma_public_rows_of_complete(s, s.files, i);
    let j = choose|j: int|
        0 <= j < public_rows_of(s, s.files).len() && #[trigger] public_rows_of(s, s.files)[j]
            == public_row(s.files[i], owner_name(s, s.files[i].id)->0);
    assert(public_rows(s)[j] == public_row(s.files[i], owner_name(s, s.files[i].id)->0));
}

/// Every non-public file with an owner permission row that the viewer
/// holds any permission row on appears in the viewer's private listing;
/// its `is_downloadable` is true iff the viewer's role is `Owner` or
/// `Download`.
pub proof fn lemma_private_listing_complete(s: StoreView, viewer: u128, i: int)
    requires
        wf(s),
        0 <= i < s.files.len(),
        !s.files[i].is_public,
        find_owner(s.perms, s.files[i].id) is Some,
        find_perm(s.perms, s.files[i].id, viewer) is Some,
    ensures
        exists|j: int|
            0 <= j < private_rows(s, viewer).len() && #[trigger] private_rows(s, viewer)[j]
                == private_row(
                s.files[i],
                owner_name(s, s.files[i].id)->0,
                viewer_can_download(s, s.files[i].id, viewer),
            ),
        viewer_can_download(s, s.files[i].id, viewer) == (find_perm(
            s.perms,
            s.files[i].id,
            viewer,
        )->0.role == Role::Owner || find_perm(s.perms, s.files[i].id, viewer)->0.role
            == Role::Download),
{
    lemma_owner_resolves(s, s.files[i].id);
    lemma_private_rows_of_complete(s, s.files, viewer, i);
    let j = choose|j: int|
        0 <= j < private_rows_of(s, s.files, viewer).len() && #[trigger] private_rows_of(
            s,
            s.files,
            viewer,
        )[j] == private_row(
            s.files[i],
            owner_name(s, s.files[i].id)->0,
            viewer_can_download(s, s.files[i].id, viewer),
        );
    assert(private_rows(s, viewer)[j] == private_row(
        s.files[i],
        owner_name(s, s.files[i].id)->0,
        viewer_can_download(s, s.files[i].id, viewer),
    ));
}

proof fn lemma_private_rows_of_complete(
    s: StoreView,
    files: Seq<FileResponseModel>,
    viewer: u128,
    i: int,
)
    requires
        0 <= i < files.len(),
        private_visible(s, files[i], viewer),
    ensures
        exists|j: int|
            0 <= j < private_rows_of(s, files, viewer).len() && #[trigger] private_rows_of(
                s,
                files,
                viewer,
            )[j] == private_row(
                files[i],
                owner_name(s, files[i].id)->0,
                viewer_can_download(s, files[i].id, viewer),
            ),
    decreases files.len(),
{
    let rows = private_rows_of(s, files, viewer);
    if i == files.len() - 1 {
        assert(rows[rows.len() - 1] == private_row(
            files[i],
            owner_name(s, files[i].id)->0,
            viewer_can_download(s, files[i].id, viewer),
        ));
    } else {
        assert(files.drop_last()[i] == files[i]);
        lemma_private_rows_of_complete(s, files.drop_last(), viewer, i);
        let rest = private_rows_of(s, files.drop_last(), viewer);
        let j = choose|j: int|
            0 <= j < rest.len() && #[trigger] rest[j] == private_row(
                files[i],
                owner_name(s, files[i].id)->0,
                viewer_can_download(s, files[i].id, viewer),
            );
        assert(rows[j] == private_row(
            files[i],
            owner_name(s, files[i].id)->0,
            viewer_can_download(s, files[i].id, viewer),
        ));
    }
}

/// Every row of a private listing comes from a non-public file the viewer
/// holds a permission row on, carrying that file's fields, its owner's
/// name, and the viewer's derived downloadability.
pub proof fn lemma_private_listing_sound(s: StoreView, viewer: u128, j: int)
    requires
        0 <= j < private_rows(s, viewer).len(),
    ensures
        exists|i: int|
            0 <= i < s.files.len() && private_visible(s, #[trigger] s.files[i], viewer)
                && private_rows(s, viewer)[j] == private_row(
                s.files[i],
                owner_name(s, s.files[i].id)->0,
                viewer_can_download(s, s.files[i].id, viewer),
            ),
{
    lemma_private_rows_of_sound(s, s.files, viewer, j);
}

proof fn lemma_private_rows_of_sound(
    s: StoreView,
    files: Seq<FileResponseModel>,
    viewer: u128,
    j: int,
)
    requires
        0 <= j < private_rows_of(s, files, viewer).len(),
    ensures
        exists|i: int|
            0 <= i < files.len() && private_visible(s, #[trigger] files[i], viewer)
                && private_rows_of(s, files, viewer)[j] == private_row(
                files[i],
                owner_name(s, files[i].id)->0,
                viewer_can_download(s, files[i].id, viewer),
            ),
    decreases files.len(),
{
    let rows = private_rows_of(s, files, viewer);
    let rest = private_rows_of(s, files.drop_last(), viewer);
    if j < rest.len() {
        lemma_private_rows_of_sound(s, files.drop_last(), viewer, j);
        let i = choose|i: int|
            0 <= i < files.drop_last().len() && private_visible(
                s,
                #[trigger] files.drop_last()[i],
                viewer,
            ) && rest[j] == private_row(
                files.drop_last()[i],
                owner_name(s, files.drop_last()[i].id)->0,
                viewer_can_download(s, files.drop_last()[i].id, viewer),
            );
        assert(files[i] == files.drop_last()[i]);
        assert(private_visible(s, files[i], viewer) && rows[j] == private_row(
            files[i],
            owner_name(s, files[i].id)->0,
            viewer_can_download(s, files[i].id, viewer),
        ));
    } else {
        let i = files.len() - 1;
        assert(private_visible(s, files[i], viewer) && rows[j] == private_row(
            files[i],
            owner_name(s, files[i].id)->0,
            viewer_can_download(s, files[i].id, viewer),
        ));
    }
}

/// After inserting a fresh file row and its owner permission row, fetching
/// the returned identifier finds exactly the new record, and the new
/// permission row is the file's owner row.
pub proof fn lemma_create_then_get(s: StoreView, f: FileResponseModel, grant: FilePermission)
    requires
        wf(s),
        !has_file_id(s.files, f.id),
        grant.file_id == f.id,
        grant.role == Role::Owner,
    ensures
        find_file(s.files.push(f), f.id) == Some(f),
        find_owner(s.perms.push(grant), f.id) == Some(grant),
{
    assert forall|k: int| 0 <= k < s.files.len() implies s.files[k].id != f.id by {
        assert(!file_id_pred(f.id)(s.files[k]));
    }
    assert(forall|k: int|
        0 <= k < s.files.len() ==> !#[trigger] file_id_pred(f.id)(s.files.push(f)[k]));
    assert(file_id_pred(f.id)(s.files.push(f)[s.files.len() as int]));
    lemma_find_by_first(s.files.push(f), file_id_pred(f.id), s.files.len() as int);
    assert forall|k: int| 0 <= k < s.perms.len() implies !owner_perm_pred(f.id)(
        s.perms.push(grant)[k],
    ) by {
        if s.perms[k].file_id == f.id {
            assert(has_file_id(s.files, f.id));
        }
    }
    assert(owner_perm_pred(f.id)(s.perms.push(grant)[s.perms.len() as int]));
    lemma_find_by_first(s.perms.push(grant), owner_perm_pred(f.id), s.perms.len() as int);
}

/// After deleting a stored file, fetching its identifier finds nothing; a
/// second deletion therefore reports `NotFound` rather than an error.
pub proof fn lemma_delete_then_get(files: Seq<FileResponseModel>, i: int)
    requires
        distinct_file_ids(files),
        0 <= i < files.len(),
    ensures
        find_file(files.remove(i), files[i].id) is None,
        !has_file_id(files.remove(i), files[i].id),
{
    files.remove_ensures(i);
    let gone = files.remove(i);
    assert forall|k: int| 0 <= k < gone.len() implies !file_id_pred(files[i].id)(gone[k]) by {
        if k < i {
            assert(gone[k] == files[k]);
        } else {
            assert(gone[k] == files[k + 1]);
        }
    }
    lemma_find_by_characterizes(gone, file_id_pred(files[i].id));
}

/// A partial update keeps every field the patch does not carry and sets
/// every field it does.
pub proof fn lemma_update_is_partial(cur: FileResponseModel, patch: UpdateFile)
    ensures
        merged(cur, patch).id == cur.id,
        merged(cur, patch).created == cur.created,
        merged(cur, patch).sizebytes == cur.sizebytes,
        merged(cur, patch).is_downloadable == cur.is_downloadable,
        merged(cur, patch).is_public == cur.is_public,
        patch.fullname is None ==> merged(cur, patch).fullname == cur.fullname,
        patch.downloads is None ==> merged(cur, patch).downloads == cur.downloads,
        patch.average_rating is None ==> merged(cur, patch).average_rating == cur.average_rating,
        patch.fullname matches Some(n) ==> merged(cur, patch).fullname == n,
        patch.downloads matches Some(d) ==> merged(cur, patch).downloads == d,
        patch.average_rating matches Some(a) ==> merged(cur, patch).average_rating == a,
{
}

/// The public and private listings are exclusive: no file identifier
/// appears in both, for any viewer.
pub proof fn lemma_modes_exclusive(s: StoreView, viewer: u128, j: int, k: int)
    requires
        distinct_file_ids(s.files),
        0 <= j < public_rows(s).len(),
        0 <= k < private_rows(s, viewer).len(),
    ensures
        public_rows(s)[j].id != private_rows(s, viewer)[k].id,
{
    lemma_public_listing_sound(s, j);
    lemma_private_listing_sound(s, viewer, k);
    let i1 = choose|i: int|
        0 <= i < s.files.len() && public_visible(s, #[trigger] s.files[i]) && public_rows(s)[j]
            == public_row(s.files[i], owner_name(s, s.files[i].id)->0);
    let i2 = choose|i: int|
        0 <= i < s.files.len() && private_visible(s, #[trigger] s.files[i], viewer)
            && private_rows(s, viewer)[k] == private_row(
            s.files[i],
            owner_name(s, s.files[i].id)->0,
            viewer_can_download(s, s.files[i].id, viewer),
        );
    assert(i1 != i2);
}

} // verus!
