//! The record mutation service: creating, patching and deleting file
//! records, and granting permission rows.
//!
//! Creation inserts the file row and its owner permission row together, so
//! no state with one but not the other is ever observable. A partial update
//! overrides exactly the fields present in the patch; absent fields keep
//! their stored value. Deletion removes the file row and every permission
//! row that references it.

use vstd::prelude::*;

use crate::ambient::{fresh_id, now_micros};
use crate::model::{
    CreateFile, CreateFilePermissionSchema, FilePermission, FileResponseModel, Role, StoreError,
    UpdateFile,
};
use crate::store::{
    at_most_one_owner, distinct_file_ids, distinct_fullnames, file_id_pred, find_file, find_owner,
    find_perm, fullname_pred, fullname_taken, fullname_taken_by_other, has_file_id, has_user_id,
    lemma_has_match_push, lemma_has_match_update, one_row_per_pair, perms_reference, wf,
    fullname_other_pred, has_match, owner_perm_pred, perm_pair_pred, Store, StoreView,
};

verus! {

/// The record a patch turns a stored file into: each present field
/// overrides the stored value, each absent field keeps it.
pub open spec fn merged(cur: FileResponseModel, patch: UpdateFile) -> FileResponseModel {
    FileResponseModel {
        id: cur.id,
        fullname: match patch.fullname {
            Some(n) => n,
            None => cur.fullname,
        },
        created: cur.created,
        sizebytes: cur.sizebytes,
        downloads: match patch.downloads {
            Some(d) => d,
            None => cur.downloads,
        },
        average_rating: match patch.average_rating {
            Some(a) => a,
            None => cur.average_rating,
        },
        is_downloadable: cur.is_downloadable,
        is_public: cur.is_public,
    }
}

impl Store {
    /// Creates a file row and its owner permission row together, under a
    /// caller-supplied identifier and creation time.
    ///
    /// Fails with `DuplicateKey` iff the identifier or the full name is
    /// already taken, and otherwise with `InvalidReference` iff the owner
    /// does not resolve to an existing user; a failed call leaves the store
    /// unchanged.
    pub fn create_file_with_id(&mut self, id: u128, created: i64, body: &CreateFile) -> (r: Result<
        FileResponseModel,
        StoreError,
    >)
        requires
            wf(old(self)@),
        ensures
            wf(final(self)@),
            match r {
                Ok(f) => {
                    &&& !has_file_id(old(self)@.files, id)
                    &&& !fullname_taken(old(self)@.files, body.fullname@)
                    &&& has_user_id(old(self)@.users, body.owner_user_id)
                    &&& f == (FileResponseModel {
                        id,
                        fullname: body.fullname,
                        created,
                        sizebytes: body.sizebytes,
                        downloads: 0,
                        average_rating: 0,
                        is_downloadable: body.is_downloadable,
                        is_public: body.is_public,
                    })
                    &&& final(self)@ == old(self)@.with_files_perms(
                        old(self)@.files.push(f),
                        old(self)@.perms.push(
                            FilePermission {
                                user_account_id: body.owner_user_id,
                                role: Role::Owner,
                                file_id: id,
                            },
                        ),
                    )
                },
                Err(StoreError::DuplicateKey) => (has_file_id(old(self)@.files, id)
                    || fullname_taken(old(self)@.files, body.fullname@)) && final(self)@ == old(
                    self,
                )@,
                Err(StoreError::InvalidReference) => !has_file_id(old(self)@.files, id)
                    && !fullname_taken(old(self)@.files, body.fullname@) && !has_user_id(
                    old(self)@.users,
                    body.owner_user_id,
                ) && final(self)@ == old(self)@,
                Err(StoreError::NotFound) => false,
            },
    {
        if self.file_index(id).is_some() {
            return Err(StoreError::DuplicateKey);
        }
        if self.fullname_in_use(&body.fullname) {
            return Err(StoreError::DuplicateKey);
        }
        if self.user_index(body.owner_user_id).is_none() {
            return Err(StoreError::InvalidReference);
        }
        let f = FileResponseModel {
            id,
            fullname: body.fullname.clone(),
            created,
            sizebytes: body.sizebytes,
            downloads: 0,
            average_rating: 0,
            is_downloadable: body.is_downloadable,
            is_public: body.is_public,
        };
        let result = f.clone();
        let grant = FilePermission {
            user_account_id: body.owner_user_id,
            role: Role::Owner,
            file_id: id,
        };
        proof {
            lemma_create_preserves_wf(self@, f, grant);
        }
        self.files.push(f);
        self.perms.push(grant);
        Ok(result)
    }

    /// Creates a file under a freshly drawn identifier, stamped with the
    /// current time.
    ///
    /// A taken full name always fails with `DuplicateKey`; a missing owner
    /// fails with `InvalidReference` unless the freshly drawn identifier
    /// happened to collide, which is also reported as `DuplicateKey`. A
    /// failed call leaves the store unchanged.
    pub fn create_file(&mut self, body: &CreateFile) -> (r: Result<FileResponseModel, StoreError>)
        requires
            wf(old(self)@),
        ensures
            wf(final(self)@),
            match r {
                Ok(f) => {
                    &&& !has_file_id(old(self)@.files, f.id)
                    &&& !fullname_taken(old(self)@.files, body.fullname@)
                    &&& has_user_id(old(self)@.users, body.owner_user_id)
                    &&& f.fullname == body.fullname
                    &&& f.sizebytes == body.sizebytes
                    &&& f.downloads == 0
                    &&& f.average_rating == 0
                    &&& f.is_downloadable == body.is_downloadable
                    &&& f.is_public == body.is_public
                    &&& final(self)@ == old(self)@.with_files_perms(
                        old(self)@.files.push(f),
                        old(self)@.perms.push(
                            FilePermission {
                                user_account_id: body.owner_user_id,
                                role: Role::Owner,
                                file_id: f.id,
                            },
                        ),
                    )
                },
                Err(StoreError::DuplicateKey) => final(self)@ == old(self)@,
                Err(StoreError::InvalidReference) => !fullname_taken(old(self)@.files, body.fullname@)
                    && !has_user_id(old(self)@.users, body.owner_user_id) && final(self)@ == old(
                    self,
                )@,
                Err(StoreError::NotFound) => false,
            },
            fullname_taken(old(self)@.files, body.fullname@) ==> (r matches Err(e)
                && e == StoreError::DuplicateKey),
    {
        let id = fresh_id();
        let created = now_micros();
        self.create_file_with_id(id, created, body)
    }
}

/// The permission rows that survive deleting a file: every row on another
/// file, in stored order.
pub open spec fn perms_without_file(perms: Seq<FilePermission>, file_id: u128) -> Seq<
    FilePermission,
>
    decreases perms.len(),
{
    if perms.len() == 0 {
        Seq::empty()
    } else {
        let rest = perms_without_file(perms.drop_last(), file_id);
        if perms.last().file_id == file_id {
            rest
        } else {
            rest.push(perms.last())
        }
    }
}

impl Store {
    /// Applies a partial update to the file stored under `id` and returns
    /// the post-update record.
    ///
    /// Fails with `NotFound` iff no file carries the identifier, and with
    /// `DuplicateKey` iff the patch carries a full name some other file
    /// already uses; a failed call leaves the store unchanged.
    pub fn update_file(&mut self, id: u128, patch: &UpdateFile) -> (r: Result<
        FileResponseModel,
        StoreError,
    >)
        requires
            wf(old(self)@),
        ensures
            wf(final(self)@),
            match r {
                Ok(f) => {
                    &&& find_file(old(self)@.files, id) matches Some(cur) && f == merged(
                        cur,
                        *patch,
                    )
                    &&& !(patch.fullname matches Some(n) && fullname_taken_by_other(
                        old(self)@.files,
                        n@,
                        id,
                    ))
                    &&& exists|i: int|
                        0 <= i < old(self)@.files.len() && (#[trigger] old(self)@.files[i]).id
                            == id && final(self)@ == old(self)@.with_files(
                            old(self)@.files.update(i, f),
                        )
                },
                Err(StoreError::NotFound) => find_file(old(self)@.files, id) is None && final(self)@ == old(self)@,
                Err(StoreError::DuplicateKey) => find_file(old(self)@.files, id) is Some && (
                patch.fullname matches Some(n) && fullname_taken_by_other(
                    old(self)@.files,
                    n@,
                    id,
                )) && final(self)@ == old(self)@,
                Err(StoreError::InvalidReference) => false,
            },
    {
        let i = match self.file_index(id) {
            Some(i) => i,
            None => {
                return Err(StoreError::NotFound);
            },
        };
        match &patch.fullname {
            Some(n) => {
                if self.fullname_in_use_by_other(n, id) {
                    return Err(StoreError::DuplicateKey);
                }
            },
            None => {},
        }
        let cur = &self.files[i];
        let f = FileResponseModel {
            id: cur.id,
            fullname: match &patch.fullname {
                Some(n) => n.clone(),
                None => cur.fullname.clone(),
            },
            created: cur.created,
            sizebytes: cur.sizebytes,
            downloads: match patch.downloads {
                Some(d) => d,
                None => cur.downloads,
            },
            average_rating: match patch.average_rating {
                Some(a) => a,
                None => cur.average_rating,
            },
            is_downloadable: cur.is_downloadable,
            is_public: cur.is_public,
        };
        let result = f.clone();
        proof {
            lemma_update_preserves_wf(self@, i as int, f);
        }
        self.files.set(i, f);
        Ok(result)
    }

    /// Deletes the file stored under `id` together with every permission
    /// row referencing it.
    ///
    /// Reports `NotFound` iff no file carries the identifier; that call
    /// leaves the store unchanged.
    pub fn delete_file(&mut self, id: u128) -> (r: Result<(), StoreError>)
        requires
            wf(old(self)@),
        ensures
            wf(final(self)@),
            match r {
                Ok(_) => exists|i: int|
                    0 <= i < old(self)@.files.len() && (#[trigger] old(self)@.files[i]).id == id
                        && final(self)@ == old(self)@.with_files_perms(
                        old(self)@.files.remove(i),
                        perms_without_file(old(self)@.perms, id),
                    ),
                Err(e) => e == StoreError::NotFound && find_file(old(self)@.files, id) is None
                    && final(self)@ == old(self)@,
            },
    {
        let i = match self.file_index(id) {
            Some(i) => i,
            None => {
                return Err(StoreError::NotFound);
            },
        };
        let mut kept: Vec<FilePermission> = Vec::new();
        let mut k: usize = 0;
        while k < self.perms.len()
            invariant
                k <= self.perms@.len(),
                kept@ == perms_without_file(self.perms@.subrange(0, k as int), id),
            decreases self.perms@.len() - k,
        {
            let p = self.perms[k];
            if p.file_id != id {
                kept.push(p);
            }
            proof {
                assert(self.perms@.subrange(0, k + 1).drop_last() =~= self.perms@.subrange(
                    0,
                    k as int,
                ));
                assert(self.perms@.subrange(0, k + 1).last() == self.perms@[k as int]);
            }
            k += 1;
        }
        proof {
            assert(self.perms@.subrange(0, self.perms@.len() as int) =~= self.perms@);
            lemma_delete_preserves_wf(self@, i as int);
        }
        self.files.remove(i);
        self.perms = kept;
        Ok(())
    }

    /// Grants `roles_pk` on `files_pk` to `user_account_pk`.
    ///
    /// Fails with `InvalidReference` iff the file or the user does not
    /// exist, and otherwise with `DuplicateKey` iff the user already holds
    /// a row on the file or an `Owner` grant would give the file a second
    /// owner; a failed call leaves the store unchanged.
    pub fn add_permission(&mut self, grant: &CreateFilePermissionSchema) -> (r: Result<
        (),
        StoreError,
    >)
        requires
            wf(old(self)@),
        ensures
            wf(final(self)@),
            match r {
                Ok(_) => {
                    &&& has_file_id(old(self)@.files, grant.files_pk)
                    &&& has_user_id(old(self)@.users, grant.user_account_pk)
                    &&& find_perm(old(self)@.perms, grant.files_pk, grant.user_account_pk) is None
                    &&& !(grant.roles_pk == Role::Owner && find_owner(
                        old(self)@.perms,
                        grant.files_pk,
                    ) is Some)
                    &&& final(self)@ == old(self)@.with_perms(
                        old(self)@.perms.push(
                            FilePermission {
                                user_account_id: grant.user_account_pk,
                                role: grant.roles_pk,
                                file_id: grant.files_pk,
                            },
                        ),
                    )
                },
                Err(StoreError::InvalidReference) => (!has_file_id(old(self)@.files, grant.files_pk)
                    || !has_user_id(old(self)@.users, grant.user_account_pk)) && final(self)@
                    == old(self)@,
                Err(StoreError::DuplicateKey) => {
                    &&& has_file_id(old(self)@.files, grant.files_pk)
                    &&& has_user_id(old(self)@.users, grant.user_account_pk)
                    &&& (find_perm(old(self)@.perms, grant.files_pk, grant.user_account_pk)
                        is Some || (grant.roles_pk == Role::Owner && find_owner(
                        old(self)@.perms,
                        grant.files_pk,
                    ) is Some))
                    &&& final(self)@ == old(self)@
                },
                Err(StoreError::NotFound) => false,
            },
    {
        if self.file_index(grant.files_pk).is_none() || self.user_index(
            grant.user_account_pk,
        ).is_none() {
            return Err(StoreError::InvalidReference);
        }
        if self.perm_row(grant.files_pk, grant.user_account_pk).is_some() {
            return Err(StoreError::DuplicateKey);
        }
        let is_owner_grant = matches!(grant.roles_pk, Role::Owner);
        if is_owner_grant && self.owner_row(grant.files_pk).is_some() {
            return Err(StoreError::DuplicateKey);
        }
        let row = FilePermission {
            user_account_id: grant.user_account_pk,
            role: grant.roles_pk,
            file_id: grant.files_pk,
        };
        proof {
            lemma_grant_preserves_wf(self@, row);
        }
        self.perms.push(row);
        Ok(())
    }
}

/// Updating a stored file in place, under the same identifier and with a
/// full name no other file uses, keeps the store well formed.
proof fn lemma_update_preserves_wf(s: StoreView, i: int, f: FileResponseModel)
    requires
        wf(s),
        0 <= i < s.files.len(),
        f.id == s.files[i].id,
        !fullname_taken_by_other(s.files, f.fullname@, f.id),
    ensures
        wf(s.with_files(s.files.update(i, f))),
{
    let files2 = s.files.update(i, f);
    assert forall|k: int| 0 <= k < s.files.len() && k != i implies s.files[k].fullname@
        != f.fullname@ by {
        assert(!fullname_other_pred(f.fullname@, f.id)(s.files[k]));
        assert(s.files[k].id != f.id);
    }
    assert(distinct_file_ids(files2));
    assert(distinct_fullnames(files2));
    assert forall|k: int| 0 <= k < s.perms.len() implies has_file_id(
        files2,
        (#[trigger] s.perms[k]).file_id,
    ) by {
        lemma_has_match_update(s.files, file_id_pred(s.perms[k].file_id), i, f);
    }
    assert(perms_reference(files2, s.users, s.perms));
}

/// Dropping a file row together with all its permission rows keeps the
/// store well formed.
proof fn lemma_delete_preserves_wf(s: StoreView, i: int)
    requires
        wf(s),
        0 <= i < s.files.len(),
    ensures
        wf(
            s.with_files_perms(
                s.files.remove(i),
                perms_without_file(s.perms, s.files[i].id),
            ),
        ),
{
    let id = s.files[i].id;
    let files2 = s.files.remove(i);
    let perms2 = perms_without_file(s.perms, id);
    s.files.remove_ensures(i);
    assert(distinct_file_ids(files2));
    assert(distinct_fullnames(files2));
    lemma_perms_without_file_props(s.perms, id);
    assert(at_most_one_owner(perms2));
    assert(one_row_per_pair(perms2));
    assert forall|k: int| 0 <= k < perms2.len() implies has_file_id(
        files2,
        (#[trigger] perms2[k]).file_id,
    ) && has_user_id(s.users, perms2[k].user_account_id) by {
        let j = choose|j: int| 0 <= j < s.perms.len() && #[trigger] s.perms[j] == perms2[k];
        let fid = perms2[k].file_id;
        assert(has_file_id(s.files, fid));
        let w = choose|w: int| 0 <= w < s.files.len() && #[trigger] file_id_pred(fid)(s.files[w]);
        assert(w != i);
        if w < i {
            assert(file_id_pred(fid)(files2[w]));
        } else {
            assert(file_id_pred(fid)(files2[w - 1]));
        }
    }
    assert(perms_reference(files2, s.users, perms2));
}

/// What survives the permission filter: rows on other files only, each one
/// a row of the unfiltered table; the owner and pair uniqueness invariants
/// carry over.
proof fn lemma_perms_without_file_props(perms: Seq<FilePermission>, file_id: u128)
    ensures
        forall|k: int|
            0 <= k < perms_without_file(perms, file_id).len() ==> (#[trigger] perms_without_file(
                perms,
                file_id,
            )[k]).file_id != file_id,
        forall|k: int|
            #![trigger perms_without_file(perms, file_id)[k]]
            0 <= k < perms_without_file(perms, file_id).len() ==> exists|j: int|
                0 <= j < perms.len() && #[trigger] perms[j] == perms_without_file(
                    perms,
                    file_id,
                )[k],
        one_row_per_pair(perms) ==> one_row_per_pair(perms_without_file(perms, file_id)),
        at_most_one_owner(perms) ==> at_most_one_owner(perms_without_file(perms, file_id)),
    decreases perms.len(),
{
    if perms.len() == 0 {
    } else {
        let prefix = perms.drop_last();
        let rest = perms_without_file(prefix, file_id);
        let out = perms_without_file(perms, file_id);
        lemma_perms_without_file_props(prefix, file_id);
        assert(forall|j: int| 0 <= j < prefix.len() ==> prefix[j] == perms[j]);
        // Each surviving row of the prefix is a row of the full table.
        assert forall|k: int| #![trigger rest[k]] 0 <= k < rest.len() implies exists|j: int|
            0 <= j < perms.len() && #[trigger] perms[j] == rest[k] by {
            let j = choose|j: int| 0 <= j < prefix.len() && #[trigger] prefix[j] == rest[k];
            assert(perms[j] == rest[k]);
        }
        if perms.last().file_id == file_id {
            assert(out == rest);
        } else {
            assert(out == rest.push(perms.last()));
            assert(perms[perms.len() - 1] == out[out.len() - 1]);
            if one_row_per_pair(perms) {
                assert forall|k1: int, k2: int|
                    #![trigger out[k1].file_id, out[k2].file_id]
                    0 <= k1 < out.len() && 0 <= k2 < out.len() && k1 != k2 implies !(out[k1].file_id
                    == out[k2].file_id && out[k1].user_account_id == out[k2].user_account_id) by {
                    if k1 < out.len() - 1 && k2 < out.len() - 1 {
                        assert(out[k1] == rest[k1] && out[k2] == rest[k2]);
                    } else if k1 == out.len() - 1 {
                        let j = choose|j: int|
                            0 <= j < prefix.len() && #[trigger] prefix[j] == rest[k2];
                        assert(perms[j] == out[k2]);
                        assert(!(perms[j].file_id == perms[perms.len() - 1].file_id
                            && perms[j].user_account_id == perms[perms.len()
                            - 1].user_account_id));
                    } else {
                        let j = choose|j: int|
                            0 <= j < prefix.len() && #[trigger] prefix[j] == rest[k1];
                        assert(perms[j] == out[k1]);
                        assert(!(perms[j].file_id == perms[perms.len() - 1].file_id
                            && perms[j].user_account_id == perms[perms.len()
                            - 1].user_account_id));
                    }
                }
            }
            if at_most_one_owner(perms) {
                assert forall|k1: int, k2: int|
                    #![trigger out[k1].role, out[k2].role]
                    0 <= k1 < out.len() && 0 <= k2 < out.len() && k1 != k2 && out[k1].role
                    == Role::Owner && out[k2].role == Role::Owner implies out[k1].file_id
                    != out[k2].file_id by {
                    if k1 < out.len() - 1 && k2 < out.len() - 1 {
                        assert(out[k1] == rest[k1] && out[k2] == rest[k2]);
                    } else if k1 == out.len() - 1 {
                        let j = choose|j: int|
                            0 <= j < prefix.len() && #[trigger] prefix[j] == rest[k2];
                        assert(perms[j] == out[k2]);
                    } else {
                        let j = choose|j: int|
                            0 <= j < prefix.len() && #[trigger] prefix[j] == rest[k1];
                        assert(perms[j] == out[k1]);
                    }
                }
            }
        }
    }
}

/// Granting a role to a user who holds no row on the file, and an owner
/// role only where no owner row exists, keeps the store well formed.
proof fn lemma_grant_preserves_wf(s: StoreView, row: FilePermission)
    requires
        wf(s),
        has_file_id(s.files, row.file_id),
        has_user_id(s.users, row.user_account_id),
        find_perm(s.perms, row.file_id, row.user_account_id) is None,
        row.role == Role::Owner ==> find_owner(s.perms, row.file_id) is None,
    ensures
        wf(s.with_perms(s.perms.push(row))),
{
    let perms2 = s.perms.push(row);
    lemma_find_by_characterizes_pair(s.perms, row.file_id, row.user_account_id);
    assert forall|k: int| 0 <= k < s.perms.len() implies !(s.perms[k].file_id == row.file_id
        && s.perms[k].user_account_id == row.user_account_id) by {
        assert(!perm_pair_pred(row.file_id, row.user_account_id)(s.perms[k]));
    }
    if row.role == Role::Owner {
        lemma_find_by_characterizes_owner(s.perms, row.file_id);
        assert forall|k: int| 0 <= k < s.perms.len() implies !(s.perms[k].file_id == row.file_id
            && s.perms[k].role == Role::Owner) by {
            assert(!owner_perm_pred(row.file_id)(s.perms[k]));
        }
    }
    assert(at_most_one_owner(perms2));
    assert(one_row_per_pair(perms2));
    assert forall|k: int| 0 <= k < perms2.len() implies has_file_id(
        s.files,
        (#[trigger] perms2[k]).file_id,
    ) && has_user_id(s.users, perms2[k].user_account_id) by {
        if k < s.perms.len() {
            assert(perms2[k] == s.perms[k]);
        } else {
            assert(perms2[k] == row);
        }
    }
    assert(perms_reference(s.files, s.users, perms2));
}

/// Instantiates the search characterization for the pair predicate.
proof fn lemma_find_by_characterizes_pair(perms: Seq<FilePermission>, file_id: u128, user_id: u128)
    ensures
        (find_perm(perms, file_id, user_id) is Some) <==> has_match(
            perms,
            perm_pair_pred(file_id, user_id),
        ),
{
    crate::store::lemma_find_by_characterizes(perms, perm_pair_pred(file_id, user_id));
}

/// Instantiates the search characterization for the owner predicate.
proof fn lemma_find_by_characterizes_owner(perms: Seq<FilePermission>, file_id: u128)
    ensures
        (find_owner(perms, file_id) is Some) <==> has_match(perms, owner_perm_pred(file_id)),
{
    crate::store::lemma_find_by_characterizes(perms, owner_perm_pred(file_id));
}

/// Pushing a fresh file row and its owner permission row keeps the store
/// well formed.
proof fn lemma_create_preserves_wf(s: StoreView, f: FileResponseModel, grant: FilePermission)
    requires
        wf(s),
        !has_file_id(s.files, f.id),
        !fullname_taken(s.files, f.fullname@),
        has_user_id(s.users, grant.user_account_id),
        grant.file_id == f.id,
    ensures
        wf(s.with_files_perms(s.files.push(f), s.perms.push(grant))),
{
    let files2 = s.files.push(f);
    let perms2 = s.perms.push(grant);
    assert forall|k: int| 0 <= k < s.files.len() implies s.files[k].id != f.id by {
        assert(!file_id_pred(f.id)(s.files[k]));
    }
    assert forall|k: int| 0 <= k < s.files.len() implies s.files[k].fullname@ != f.fullname@ by {
        assert(!fullname_pred(f.fullname@)(s.files[k]));
    }
    assert(distinct_file_ids(files2));
    assert(distinct_fullnames(files2));
    // No existing permission row can reference the fresh file identifier.
    assert forall|k: int| 0 <= k < s.perms.len() implies s.perms[k].file_id != f.id by {
        if s.perms[k].file_id == f.id {
            assert(has_file_id(s.files, f.id));
        }
    }
    assert(at_most_one_owner(perms2));
    assert(one_row_per_pair(perms2));
    assert forall|k: int| 0 <= k < perms2.len() implies has_file_id(
        files2,
        (#[trigger] perms2[k]).file_id,
    ) && has_user_id(s.users, perms2[k].user_account_id) by {
        if k < s.perms.len() {
            lemma_has_match_push(s.files, file_id_pred(s.perms[k].file_id), f);
        } else {
            assert(file_id_pred(grant.file_id)(files2[s.files.len() as int]));
        }
    }
    assert(perms_reference(files2, s.users, perms2));
}

} // verus!
