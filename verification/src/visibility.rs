//! The visibility query engine: which file records a given access mode may
//! see, who owns them, and whether they are downloadable.
//!
//! Three access modes exist. The public listing shows public files with a
//! resolvable owner and keeps the stored downloadability flag. The private
//! listing shows, for one viewer, the non-public files the viewer holds any
//! permission row on, and derives downloadability from the viewer's role.
//! The legacy by-user listing adds, to the files the user holds a row on,
//! every file with exactly one permission row in total, treating the single
//! row's holder as the effective owner.
//!
//! All listings run in stored (insertion) order, which is deterministic
//! across calls, and are paginated with [`crate::pagination::window_of`].

use vstd::prelude::*;

use crate::model::{
    FilePermission, FilePrivateResponseModel, FilePublicResponseModel, FileResponseModel, Role,
};
use crate::pagination::{window, window_of};
use crate::store::{
    find_any_perm, find_owner, find_perm, find_user, owner_name, perm_count, Store, StoreView,
};

verus! {

// ---------------------------------------------------------------------------
// Public listing.
// ---------------------------------------------------------------------------

/// A file appears in the public listing iff it is public and its owner
/// resolves to a user name.
pub open spec fn public_visible(s: StoreView, f: FileResponseModel) -> bool {
    f.is_public && owner_name(s, f.id) is Some
}

/// The public listing row of a file: the stored fields, joined to the
/// owner's user name; downloadability is the stored flag.
pub open spec fn public_row(f: FileResponseModel, owner: String) -> FilePublicResponseModel {
    FilePublicResponseModel {
        id: f.id,
        fullname: f.fullname,
        created: f.created,
        sizebytes: f.sizebytes,
        downloads: f.downloads,
        average_rating: f.average_rating,
        owner,
        is_downloadable: f.is_downloadable,
    }
}

/// The public rows contributed by `files`, in stored order.
pub open spec fn public_rows_of(s: StoreView, files: Seq<FileResponseModel>) -> Seq<
    FilePublicResponseModel,
>
    decreases files.len(),
{
    if files.len() == 0 {
        Seq::empty()
    } else {
        let rest = public_rows_of(s, files.drop_last());
        if public_visible(s, files.last()) {
            rest.push(public_row(files.last(), owner_name(s, files.last().id)->0))
        } else {
            rest
        }
    }
}

/// The full public listing before pagination.
pub open spec fn public_rows(s: StoreView) -> Seq<FilePublicResponseModel> {
    public_rows_of(s, s.files)
}

// ---------------------------------------------------------------------------
// Private (per-viewer) listing.
// ---------------------------------------------------------------------------

/// A file appears in a viewer's private listing iff it is not public, its
/// owner resolves to a user name, and the viewer holds any permission row
/// on it.
pub open spec fn private_visible(s: StoreView, f: FileResponseModel, viewer: u128) -> bool {
    &&& !f.is_public
    &&& owner_name(s, f.id) is Some
    &&& find_perm(s.perms, f.id, viewer) is Some
}

/// The viewer may download a file iff the viewer's own role on it is
/// `Owner` or `Download`.
pub open spec fn viewer_can_download(s: StoreView, file_id: u128, viewer: u128) -> bool {
    find_perm(s.perms, file_id, viewer) matches Some(p) && p.role.grants_download()
}

/// A per-viewer listing row: the stored fields, the owner's user name, and
/// the downloadability derived for the requesting viewer.
pub open spec fn private_row(f: FileResponseModel, owner: String, downloadable: bool) -> FilePrivateResponseModel {
    FilePrivateResponseModel {
        id: f.id,
        fullname: f.fullname,
        created: f.created,
        sizebytes: f.sizebytes,
        downloads: f.downloads,
        average_rating: f.average_rating,
        owner,
        is_downloadable: downloadable,
    }
}

/// The private rows contributed by `files` for one viewer, in stored order.
pub open spec fn private_rows_of(
    s: StoreView,
    files: Seq<FileResponseModel>,
    viewer: u128,
) -> Seq<FilePrivateResponseModel>
    decreases files.len(),
{
    if files.len() == 0 {
        Seq::empty()
    } else {
        let rest = private_rows_of(s, files.drop_last(), viewer);
        if private_visible(s, files.last(), viewer) {
            rest.push(
                private_row(
                    files.last(),
                    owner_name(s, files.last().id)->0,
                    viewer_can_download(s, files.last().id, viewer),
                ),
            )
        } else {
            rest
        }
    }
}

/// The full private listing of a viewer before pagination.
pub open spec fn private_rows(s: StoreView, viewer: u128) -> Seq<FilePrivateResponseModel> {
    private_rows_of(s, s.files, viewer)
}

// ---------------------------------------------------------------------------
// Legacy by-user listing with the single-permission fallback.
// ---------------------------------------------------------------------------

/// The permission row standing in for the owner in the legacy listing: the
/// owner row when one exists; otherwise, when the file has exactly one
/// permission row in total, that row.
pub open spec fn effective_owner(s: StoreView, file_id: u128) -> Option<FilePermission> {
    match find_owner(s.perms, file_id) {
        Some(p) => Some(p),
        None => if perm_count(s.perms, file_id) == 1 {
            find_any_perm(s.perms, file_id)
        } else {
            None
        },
    }
}

/// The user name behind [`effective_owner`], if that user exists.
pub open spec fn effective_owner_name(s: StoreView, file_id: u128) -> Option<String> {
    match effective_owner(s, file_id) {
        Some(p) => match find_user(s.users, p.user_account_id) {
            Some(u) => Some(u.user_name),
            None => None,
        },
        None => None,
    }
}

/// A file appears in the legacy by-user listing iff the user holds a
/// permission row on it or it has exactly one permission row in total, and
/// its effective owner resolves to a user name.
pub open spec fn by_user_visible(s: StoreView, f: FileResponseModel, user_id: u128) -> bool {
    &&& find_perm(s.perms, f.id, user_id) is Some || perm_count(s.perms, f.id) == 1
    &&& effective_owner_name(s, f.id) is Some
}

/// The legacy rows contributed by `files` for one user, in stored order.
pub open spec fn by_user_rows_of(
    s: StoreView,
    files: Seq<FileResponseModel>,
    user_id: u128,
) -> Seq<FilePrivateResponseModel>
    decreases files.len(),
{
    if files.len() == 0 {
        Seq::empty()
    } else {
        let rest = by_user_rows_of(s, files.drop_last(), user_id);
        if by_user_visible(s, files.last(), user_id) {
            rest.push(
                private_row(
                    files.last(),
                    effective_owner_name(s, files.last().id)->0,
                    viewer_can_download(s, files.last().id, user_id),
                ),
            )
        } else {
            rest
        }
    }
}

/// The full legacy by-user listing before pagination.
pub open spec fn by_user_rows(s: StoreView, user_id: u128) -> Seq<FilePrivateResponseModel> {
    by_user_rows_of(s, s.files, user_id)
}

// ---------------------------------------------------------------------------
// Executable row constructors.
// ---------------------------------------------------------------------------

fn make_public_row(f: &FileResponseModel, owner: String) -> (r: FilePublicResponseModel)
    ensures
        r == public_row(*f, owner),
{
    FilePublicResponseModel {
        id: f.id,
        fullname: f.fullname.clone(),
        created: f.created,
        sizebytes: f.sizebytes,
        downloads: f.downloads,
        average_rating: f.average_rating,
        owner,
        is_downloadable: f.is_downloadable,
    }
}

fn make_private_row(f: &FileResponseModel, owner: String, downloadable: bool) -> (r:
    FilePrivateResponseModel)
    ensures
        r == private_row(*f, owner, downloadable),
{
    FilePrivateResponseModel {
        id: f.id,
        fullname: f.fullname.clone(),
        created: f.created,
        sizebytes: f.sizebytes,
        downloads: f.downloads,
        average_rating: f.average_rating,
        owner,
        is_downloadable: downloadable,
    }
}

// ---------------------------------------------------------------------------
// The listings.
// ---------------------------------------------------------------------------

impl Store {
    /// The requested page of the public listing: public files whose owner
    /// permission row resolves to a user, joined to that user's name, with
    /// downloadability as stored.
    pub fn public_listing(&self, page: usize, limit: usize) -> (r: Vec<FilePublicResponseModel>)
        requires
            page >= 1,
            limit >= 1,
        ensures
            r@ == window_of(public_rows(self@), page as int, limit as int),
    {
        let mut all: Vec<FilePublicResponseModel> = Vec::new();
        let mut i: usize = 0;
        while i < self.files.len()
            invariant
                i <= self.files@.len(),
                all@ == public_rows_of(self@, self.files@.subrange(0, i as int)),
            decreases self.files@.len() - i,
        {
            let f = &self.files[i];
            if f.is_public {
                match self.owner_name_of(f.id) {
                    Some(name) => {
                        let row = make_public_row(f, name);
                        all.push(row);
                    },
                    None => {},
                }
            }
            proof {
                assert(self.files@.subrange(0, i + 1).drop_last() =~= self.files@.subrange(
                    0,
                    i as int,
                ));
                assert(self.files@.subrange(0, i + 1).last() == self.files@[i as int]);
            }
            i += 1;
        }
        proof {
            assert(self.files@.subrange(0, self.files@.len() as int) =~= self.files@);
        }
        window(all, page, limit)
    }

    /// The requested page of a viewer's private listing: non-public files
    /// the viewer holds a permission row on, joined to the owner's name,
    /// with downloadability derived from the viewer's role.
    pub fn private_listing(&self, viewer: u128, page: usize, limit: usize) -> (r: Vec<
        FilePrivateResponseModel,
    >)
        requires
            page >= 1,
            limit >= 1,
        ensures
            r@ == window_of(private_rows(self@, viewer), page as int, limit as int),
    {
        let mut all: Vec<FilePrivateResponseModel> = Vec::new();
        let mut i: usize = 0;
        while i < self.files.len()
            invariant
                i <= self.files@.len(),
                all@ == private_rows_of(self@, self.files@.subrange(0, i as int), viewer),
            decreases self.files@.len() - i,
        {
            let f = &self.files[i];
            if !f.is_public {
                match self.perm_row(f.id, viewer) {
                    Some(p) => {
                        match self.owner_name_of(f.id) {
                            Some(name) => {
                                let downloadable = match p.role {
                                    Role::Owner => true,
                                    Role::Download => true,
                                    Role::View => false,
                                };
                                let row = make_private_row(f, name, downloadable);
                                all.push(row);
                            },
                            None => {},
                        }
                    },
                    None => {},
                }
            }
            proof {
                assert(self.files@.subrange(0, i + 1).drop_last() =~= self.files@.subrange(
                    0,
                    i as int,
                ));
                assert(self.files@.subrange(0, i + 1).last() == self.files@[i as int]);
            }
            i += 1;
        }
        proof {
            assert(self.files@.subrange(0, self.files@.len() as int) =~= self.files@);
        }
        window(all, page, limit)
    }

    /// The effective owner's user name for the legacy listing, if any.
    fn effective_owner_name_of(&self, file_id: u128) -> (r: Option<String>)
        ensures
            r == effective_owner_name(self@, file_id),
    {
        let eff = match self.owner_row(file_id) {
            Some(p) => Some(p),
            None => {
                if self.perm_count_of(file_id) == 1 {
                    self.any_perm_row(file_id)
                } else {
                    None
                }
            },
        };
        match eff {
            Some(p) => match self.user_index(p.user_account_id) {
                Some(i) => Some(self.users[i].user_name.clone()),
                None => None,
            },
            None => None,
        }
    }

    /// The requested page of the legacy by-user listing: files the user
    /// holds a permission row on, together with every file that has exactly
    /// one permission row in total (its single holder standing in as the
    /// owner). Preserved for compatibility with the historical query shape.
    pub fn by_user_id_or_orphan(&self, user_id: u128, page: usize, limit: usize) -> (r: Vec<
        FilePrivateResponseModel,
    >)
        requires
            page >= 1,
            limit >= 1,
        ensures
            r@ == window_of(by_user_rows(self@, user_id), page as int, limit as int),
    {
        let mut all: Vec<FilePrivateResponseModel> = Vec::new();
        let mut i: usize = 0;
        while i < self.files.len()
            invariant
                i <= self.files@.len(),
                all@ == by_user_rows_of(self@, self.files@.subrange(0, i as int), user_id),
            decreases self.files@.len() - i,
        {
            let f = &self.files[i];
            let held = self.perm_row(f.id, user_id);
            let single = self.perm_count_of(f.id) == 1;
            if held.is_some() || single {
                match self.effective_owner_name_of(f.id) {
                    Some(name) => {
                        let downloadable = match held {
                            Some(p) => match p.role {
                                Role::Owner => true,
                                Role::Download => true,
                                Role::View => false,
                            },
                            None => false,
                        };
                        let row = make_private_row(f, name, downloadable);
                        all.push(row);
                    },
                    None => {},
                }
            }
            proof {
                assert(self.files@.subrange(0, i + 1).drop_last() =~= self.files@.subrange(
                    0,
                    i as int,
                ));
                assert(self.files@.subrange(0, i + 1).last() == self.files@[i as int]);
            }
            i += 1;
        }
        proof {
            assert(self.files@.subrange(0, self.files@.len() as int) =~= self.files@);
        }
        window(all, page, limit)
    }
}

} // verus!
