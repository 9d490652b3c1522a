//! The in-memory relational model: tables, well-formedness, and lookups.
//!
//! `Store` plays the part of the persistence gateway: a handle passed to each
//! service call. Its mathematical value is a [`StoreView`], a tuple of
//! sequences, one per table, and every operation's contract is stated over
//! that view.

use vstd::prelude::*;

use crate::model::{
    FilePermission, FileResponseModel, Role, StoreError, UserMail, UserModel,
};
use crate::prints::{Gcode, Material, MaterialBrand, PrintJob, Printer, PrinterBrand};

verus! {

/// The mathematical value of a [`Store`]: one sequence per table.
pub struct StoreView {
    pub files: Seq<FileResponseModel>,
    pub users: Seq<UserModel>,
    pub mails: Seq<UserMail>,
    pub perms: Seq<FilePermission>,
    pub prints: Seq<PrintJob>,
    pub materials: Seq<Material>,
    pub material_brands: Seq<MaterialBrand>,
    pub printers: Seq<Printer>,
    pub printer_brands: Seq<PrinterBrand>,
    pub gcodes: Seq<Gcode>,
}

// ---------------------------------------------------------------------------
// Generic first-match search over a sequence.
// ---------------------------------------------------------------------------

/// Does some element of `s` satisfy `p`?
pub open spec fn has_match<T>(s: Seq<T>, p: spec_fn(T) -> bool) -> bool {
    exists|i: int| 0 <= i < s.len() && #[trigger] p(s[i])
}

/// The first element of `s` satisfying `p`, if any.
pub open spec fn find_by<T>(s: Seq<T>, p: spec_fn(T) -> bool) -> Option<T>
    decreases s.len(),
{
    if s.len() == 0 {
        None
    } else if p(s[0]) {
        Some(s[0])
    } else {
        find_by(s.drop_first(), p)
    }
}

/// How many elements of `s` satisfy `p`.
pub open spec fn count_by<T>(s: Seq<T>, p: spec_fn(T) -> bool) -> nat
    decreases s.len(),
{
    if s.len() == 0 {
        0
    } else {
        count_by(s.drop_last(), p) + if p(s.last()) {
            1nat
        } else {
            0nat
        }
    }
}

/// `find_by` succeeds exactly when a match exists, and what it returns is a
/// matching element of the sequence.
pub proof fn lemma_find_by_characterizes<T>(s: Seq<T>, p: spec_fn(T) -> bool)
    ensures
        (find_by(s, p) is Some) <==> has_match(s, p),
        find_by(s, p) matches Some(x) ==> p(x) && exists|i: int|
            0 <= i < s.len() && #[trigger] s[i] == x,
    decreases s.len(),
{
    if s.len() == 0 {
    } else if p(s[0]) {
        assert(p(s[0]));
        assert(s[0] == s[0]);
    } else {
        lemma_find_by_characterizes(s.drop_first(), p);
        if has_match(s.drop_first(), p) {
            let i = choose|i: int| 0 <= i < s.drop_first().len() && #[trigger] p(s.drop_first()[i]);
            assert(p(s[i + 1]));
        }
        if has_match(s, p) {
            let i = choose|i: int| 0 <= i < s.len() && #[trigger] p(s[i]);
            assert(i != 0);
            assert(p(s.drop_first()[i - 1]));
        }
        if find_by(s, p) is Some {
            let x = find_by(s, p)->0;
            let i = choose|i: int| 0 <= i < s.drop_first().len() && #[trigger] s.drop_first()[i] == x;
            assert(s[i + 1] == x);
        }
    }
}

/// When `s[i]` matches and nothing before it does, `find_by` returns `s[i]`.
pub proof fn lemma_find_by_first<T>(s: Seq<T>, p: spec_fn(T) -> bool, i: int)
    requires
        0 <= i < s.len(),
        p(s[i]),
        forall|j: int| 0 <= j < i ==> !#[trigger] p(s[j]),
    ensures
        find_by(s, p) == Some(s[i]),
    decreases i,
{
    if i == 0 {
    } else {
        assert(!p(s[0]));
        assert(p(s.drop_first()[i - 1]));
        assert(forall|j: int| 0 <= j < i - 1 ==> !#[trigger] p(s.drop_first()[j])) by {
            assert(forall|j: int|
                0 <= j < s.drop_first().len() ==> s.drop_first()[j] == s[j + 1]);
        }
        lemma_find_by_first(s.drop_first(), p, i - 1);
    }
}

// ---------------------------------------------------------------------------
// The match predicates of the individual tables.
// ---------------------------------------------------------------------------

/// The file with this identifier.
pub open spec fn file_id_pred(id: u128) -> spec_fn(FileResponseModel) -> bool {
    |f: FileResponseModel| f.id == id
}

/// A file carrying this full name.
pub open spec fn fullname_pred(name: Seq<char>) -> spec_fn(FileResponseModel) -> bool {
    |f: FileResponseModel| f.fullname@ == name
}

/// The user with this identifier.
pub open spec fn user_id_pred(id: u128) -> spec_fn(UserModel) -> bool {
    |u: UserModel| u.id == id
}

/// A mail row carrying this address.
pub open spec fn mail_pred(mail: Seq<char>) -> spec_fn(UserMail) -> bool {
    |m: UserMail| m.mail@ == mail
}

/// The owner permission row of this file.
pub open spec fn owner_perm_pred(file_id: u128) -> spec_fn(FilePermission) -> bool {
    |p: FilePermission| p.file_id == file_id && p.role == Role::Owner
}

/// The permission row this user holds on this file.
pub open spec fn perm_pair_pred(file_id: u128, user_id: u128) -> spec_fn(FilePermission) -> bool {
    |p: FilePermission| p.file_id == file_id && p.user_account_id == user_id
}

/// Any permission row on this file.
pub open spec fn perm_file_pred(file_id: u128) -> spec_fn(FilePermission) -> bool {
    |p: FilePermission| p.file_id == file_id
}

/// The gcode row with this identifier.
pub open spec fn gcode_id_pred(id: u128) -> spec_fn(Gcode) -> bool {
    |g: Gcode| g.id == id
}

/// The material with this identifier.
pub open spec fn material_id_pred(id: u128) -> spec_fn(Material) -> bool {
    |m: Material| m.id == id
}

/// The material brand with this identifier.
pub open spec fn material_brand_id_pred(id: u128) -> spec_fn(MaterialBrand) -> bool {
    |b: MaterialBrand| b.id == id
}

/// The printer with this identifier.
pub open spec fn printer_id_pred(id: u128) -> spec_fn(Printer) -> bool {
    |pr: Printer| pr.id == id
}

/// The printer brand with this identifier.
pub open spec fn printer_brand_id_pred(id: u128) -> spec_fn(PrinterBrand) -> bool {
    |b: PrinterBrand| b.id == id
}

// ---------------------------------------------------------------------------
// Named lookups over a store view.
// ---------------------------------------------------------------------------

/// Is some file stored under this identifier?
pub open spec fn has_file_id(files: Seq<FileResponseModel>, id: u128) -> bool {
    has_match(files, file_id_pred(id))
}

/// The file stored under this identifier, if any.
pub open spec fn find_file(files: Seq<FileResponseModel>, id: u128) -> Option<FileResponseModel> {
    find_by(files, file_id_pred(id))
}

/// Does some file already carry this full name?
pub open spec fn fullname_taken(files: Seq<FileResponseModel>, name: Seq<char>) -> bool {
    has_match(files, fullname_pred(name))
}

/// Is some user stored under this identifier?
pub open spec fn has_user_id(users: Seq<UserModel>, id: u128) -> bool {
    has_match(users, user_id_pred(id))
}

/// The user stored under this identifier, if any.
pub open spec fn find_user(users: Seq<UserModel>, id: u128) -> Option<UserModel> {
    find_by(users, user_id_pred(id))
}

/// Is some mail row stored under this address?
pub open spec fn mail_taken(mails: Seq<UserMail>, mail: Seq<char>) -> bool {
    has_match(mails, mail_pred(mail))
}

/// The mail row stored under this address, if any.
pub open spec fn find_mail(mails: Seq<UserMail>, mail: Seq<char>) -> Option<UserMail> {
    find_by(mails, mail_pred(mail))
}

/// The owner permission row of this file, if any.
pub open spec fn find_owner(perms: Seq<FilePermission>, file_id: u128) -> Option<FilePermission> {
    find_by(perms, owner_perm_pred(file_id))
}

/// The permission row this user holds on this file, if any.
pub open spec fn find_perm(perms: Seq<FilePermission>, file_id: u128, user_id: u128) -> Option<
    FilePermission,
> {
    find_by(perms, perm_pair_pred(file_id, user_id))
}

/// The first permission row on this file, if any.
pub open spec fn find_any_perm(perms: Seq<FilePermission>, file_id: u128) -> Option<
    FilePermission,
> {
    find_by(perms, perm_file_pred(file_id))
}

/// How many permission rows this file has in total.
pub open spec fn perm_count(perms: Seq<FilePermission>, file_id: u128) -> nat {
    count_by(perms, perm_file_pred(file_id))
}

/// A file other than `keep_id` carrying this full name.
pub open spec fn fullname_other_pred(name: Seq<char>, keep_id: u128) -> spec_fn(
    FileResponseModel,
) -> bool {
    |f: FileResponseModel| f.id != keep_id && f.fullname@ == name
}

/// Does a file other than `keep_id` already carry this full name?
pub open spec fn fullname_taken_by_other(
    files: Seq<FileResponseModel>,
    name: Seq<char>,
    keep_id: u128,
) -> bool {
    has_match(files, fullname_other_pred(name, keep_id))
}

/// The user name of the file's owner: the user referenced by the owner
/// permission row, if both the row and the user exist.
pub open spec fn owner_name(s: StoreView, file_id: u128) -> Option<String> {
    match find_owner(s.perms, file_id) {
        Some(p) => match find_user(s.users, p.user_account_id) {
            Some(u) => Some(u.user_name),
            None => None,
        },
        None => None,
    }
}

// ---------------------------------------------------------------------------
// Well-formedness: the relational invariants of the store.
// ---------------------------------------------------------------------------

/// No two files share an identifier.
pub open spec fn distinct_file_ids(files: Seq<FileResponseModel>) -> bool {
    forall|i: int, j: int|
        #![trigger files[i].id, files[j].id]
        0 <= i < files.len() && 0 <= j < files.len() && i != j ==> files[i].id != files[j].id
}

/// No two files share a full name.
pub open spec fn distinct_fullnames(files: Seq<FileResponseModel>) -> bool {
    forall|i: int, j: int|
        #![trigger files[i].fullname, files[j].fullname]
        0 <= i < files.len() && 0 <= j < files.len() && i != j ==> files[i].fullname@
            != files[j].fullname@
}

/// No two users share an identifier.
pub open spec fn distinct_user_ids(users: Seq<UserModel>) -> bool {
    forall|i: int, j: int|
        #![trigger users[i].id, users[j].id]
        0 <= i < users.len() && 0 <= j < users.len() && i != j ==> users[i].id != users[j].id
}

/// No two mail rows share an address.
pub open spec fn distinct_mails(mails: Seq<UserMail>) -> bool {
    forall|i: int, j: int|
        #![trigger mails[i].mail, mails[j].mail]
        0 <= i < mails.len() && 0 <= j < mails.len() && i != j ==> mails[i].mail@
            != mails[j].mail@
}

/// Every permission row references an existing file and an existing user.
pub open spec fn perms_reference(
    files: Seq<FileResponseModel>,
    users: Seq<UserModel>,
    perms: Seq<FilePermission>,
) -> bool {
    forall|k: int|
        0 <= k < perms.len() ==> has_file_id(files, (#[trigger] perms[k]).file_id) && has_user_id(
            users,
            perms[k].user_account_id,
        )
}

/// Every mail row references an existing user.
pub open spec fn mails_reference(users: Seq<UserModel>, mails: Seq<UserMail>) -> bool {
    forall|k: int|
        0 <= k < mails.len() ==> has_user_id(users, (#[trigger] mails[k]).user_account_id)
}

/// Every file has at most one permission row with role `Owner`.
pub open spec fn at_most_one_owner(perms: Seq<FilePermission>) -> bool {
    forall|i: int, j: int|
        #![trigger perms[i].role, perms[j].role]
        0 <= i < perms.len() && 0 <= j < perms.len() && i != j && perms[i].role == Role::Owner
            && perms[j].role == Role::Owner ==> perms[i].file_id != perms[j].file_id
}

/// A user holds at most one permission row per file.
pub open spec fn one_row_per_pair(perms: Seq<FilePermission>) -> bool {
    forall|i: int, j: int|
        #![trigger perms[i].file_id, perms[j].file_id]
        0 <= i < perms.len() && 0 <= j < perms.len() && i != j ==> !(perms[i].file_id
            == perms[j].file_id && perms[i].user_account_id == perms[j].user_account_id)
}

/// The invariants the mutation service establishes and preserves:
/// identifiers, full names and mail addresses are unique; permission and
/// mail rows reference existing rows; a file has at most one owner row and
/// at most one row per user.
pub open spec fn wf(s: StoreView) -> bool {
    &&& distinct_file_ids(s.files)
    &&& distinct_fullnames(s.files)
    &&& distinct_user_ids(s.users)
    &&& distinct_mails(s.mails)
    &&& perms_reference(s.files, s.users, s.perms)
    &&& mails_reference(s.users, s.mails)
    &&& at_most_one_owner(s.perms)
    &&& one_row_per_pair(s.perms)
}

impl StoreView {
    /// This view with the file table replaced.
    pub open spec fn with_files(self, files: Seq<FileResponseModel>) -> StoreView {
        StoreView { files, ..self }
    }

    /// This view with the file and permission tables replaced.
    pub open spec fn with_files_perms(
        self,
        files: Seq<FileResponseModel>,
        perms: Seq<FilePermission>,
    ) -> StoreView {
        StoreView { files, perms, ..self }
    }

    /// This view with the permission table replaced.
    pub open spec fn with_perms(self, perms: Seq<FilePermission>) -> StoreView {
        StoreView { perms, ..self }
    }

    /// This view with the user and mail tables replaced.
    pub open spec fn with_users_mails(
        self,
        users: Seq<UserModel>,
        mails: Seq<UserMail>,
    ) -> StoreView {
        StoreView { users, mails, ..self }
    }
}

/// A match survives pushing one more element.
pub proof fn lemma_has_match_push<T>(s: Seq<T>, p: spec_fn(T) -> bool, x: T)
    requires
        has_match(s, p) || p(x),
    ensures
        has_match(s.push(x), p),
{
    if has_match(s, p) {
        let i = choose|i: int| 0 <= i < s.len() && #[trigger] p(s[i]);
        assert(p(s.push(x)[i]));
    } else {
        assert(p(s.push(x)[s.len() as int]));
    }
}

/// A match survives updating a position whose element still satisfies the
/// predicate, or any other position.
pub proof fn lemma_has_match_update<T>(s: Seq<T>, p: spec_fn(T) -> bool, i: int, x: T)
    requires
        has_match(s, p),
        0 <= i < s.len(),
        p(s[i]) ==> p(x),
    ensures
        has_match(s.update(i, x), p),
{
    let w = choose|w: int| 0 <= w < s.len() && #[trigger] p(s[w]);
    if w == i {
        assert(p(s.update(i, x)[i]));
    } else {
        assert(p(s.update(i, x)[w]));
    }
}

// ---------------------------------------------------------------------------
// The store itself.
// ---------------------------------------------------------------------------

/// The in-memory relational store.
pub struct Store {
    pub files: Vec<FileResponseModel>,
    pub users: Vec<UserModel>,
    pub mails: Vec<UserMail>,
    pub perms: Vec<FilePermission>,
    pub prints: Vec<PrintJob>,
    pub materials: Vec<Material>,
    pub material_brands: Vec<MaterialBrand>,
    pub printers: Vec<Printer>,
    pub printer_brands: Vec<PrinterBrand>,
    pub gcodes: Vec<Gcode>,
}

impl View for Store {
    type V = StoreView;

    open spec fn view(&self) -> StoreView {
        StoreView {
            files: self.files@,
            users: self.users@,
            mails: self.mails@,
            perms: self.perms@,
            prints: self.prints@,
            materials: self.materials@,
            material_brands: self.material_brands@,
            printers: self.printers@,
            printer_brands: self.printer_brands@,
            gcodes: self.gcodes@,
        }
    }
}

impl Store {
    /// An empty store, trivially well formed.
    pub fn new() -> (r: Store)
        ensures
            wf(r@),
            r@.files.len() == 0,
            r@.users.len() == 0,
            r@.mails.len() == 0,
            r@.perms.len() == 0,
            r@.prints.len() == 0,
            r@.materials.len() == 0,
            r@.material_brands.len() == 0,
            r@.printers.len() == 0,
            r@.printer_brands.len() == 0,
            r@.gcodes.len() == 0,
    {
        Store {
            files: Vec::new(),
            users: Vec::new(),
            mails: Vec::new(),
            perms: Vec::new(),
            prints: Vec::new(),
            materials: Vec::new(),
            material_brands: Vec::new(),
            printers: Vec::new(),
            printer_brands: Vec::new(),
            gcodes: Vec::new(),
        }
    }
}

impl Store {
    /// The position of the file stored under `id`, if any.
    pub(crate) fn file_index(&self, id: u128) -> (r: Option<usize>)
        ensures
            r matches Some(i) ==> i < self@.files.len() && self@.files[i as int].id == id
                && find_file(self@.files, id) == Some(self@.files[i as int]) && has_file_id(
                self@.files,
                id,
            ),
            r is None ==> find_file(self@.files, id) is None && !has_file_id(self@.files, id),
    {
        let mut i: usize = 0;
        while i < self.files.len()
            invariant
                i <= self.files@.len(),
                forall|k: int| 0 <= k < i ==> (#[trigger] self.files@[k]).id != id,
            decreases self.files@.len() - i,
        {
            if self.files[i].id == id {
                proof {
                    lemma_find_by_first(self.files@, file_id_pred(id), i as int);
                    assert(file_id_pred(id)(self.files@[i as int]));
                }
                return Some(i);
            }
            i += 1;
        }
        proof {
            lemma_find_by_characterizes(self.files@, file_id_pred(id));
        }
        None
    }

    /// The position of the user stored under `id`, if any.
    pub(crate) fn user_index(&self, id: u128) -> (r: Option<usize>)
        ensures
            r matches Some(i) ==> i < self@.users.len() && self@.users[i as int].id == id
                && find_user(self@.users, id) == Some(self@.users[i as int]) && has_user_id(
                self@.users,
                id,
            ),
            r is None ==> find_user(self@.users, id) is None && !has_user_id(self@.users, id),
    {
        let mut i: usize = 0;
        while i < self.users.len()
            invariant
                i <= self.users@.len(),
                forall|k: int| 0 <= k < i ==> (#[trigger] self.users@[k]).id != id,
            decreases self.users@.len() - i,
        {
            if self.users[i].id == id {
                proof {
                    lemma_find_by_first(self.users@, user_id_pred(id), i as int);
                    assert(user_id_pred(id)(self.users@[i as int]));
                }
                return Some(i);
            }
            i += 1;
        }
        proof {
            lemma_find_by_characterizes(self.users@, user_id_pred(id));
        }
        None
    }

    /// The owner permission row of `file_id`, if any.
    pub(crate) fn owner_row(&self, file_id: u128) -> (r: Option<FilePermission>)
        ensures
            r == find_owner(self@.perms, file_id),
    {
        let mut i: usize = 0;
        while i < self.perms.len()
            invariant
                i <= self.perms@.len(),
                forall|k: int|
                    0 <= k < i ==> !((#[trigger] self.perms@[k]).file_id == file_id
                        && self.perms@[k].role == Role::Owner),
            decreases self.perms@.len() - i,
        {
            let p = self.perms[i];
            if p.file_id == file_id && matches!(p.role, Role::Owner) {
                proof {
                    lemma_find_by_first(self.perms@, owner_perm_pred(file_id), i as int);
                }
                return Some(p);
            }
            i += 1;
        }
        proof {
            lemma_find_by_characterizes(self.perms@, owner_perm_pred(file_id));
        }
        None
    }

    /// The permission row `user_id` holds on `file_id`, if any.
    pub(crate) fn perm_row(&self, file_id: u128, user_id: u128) -> (r: Option<FilePermission>)
        ensures
            r == find_perm(self@.perms, file_id, user_id),
    {
        let mut i: usize = 0;
        while i < self.perms.len()
            invariant
                i <= self.perms@.len(),
                forall|k: int|
                    0 <= k < i ==> !((#[trigger] self.perms@[k]).file_id == file_id
                        && self.perms@[k].user_account_id == user_id),
            decreases self.perms@.len() - i,
        {
            let p = self.perms[i];
            if p.file_id == file_id && p.user_account_id == user_id {
                proof {
                    lemma_find_by_first(self.perms@, perm_pair_pred(file_id, user_id), i as int);
                }
                return Some(p);
            }
            i += 1;
        }
        proof {
            lemma_find_by_characterizes(self.perms@, perm_pair_pred(file_id, user_id));
        }
        None
    }

    /// The first permission row on `file_id`, if any.
    pub(crate) fn any_perm_row(&self, file_id: u128) -> (r: Option<FilePermission>)
        ensures
            r == find_any_perm(self@.perms, file_id),
    {
        let mut i: usize = 0;
        while i < self.perms.len()
            invariant
                i <= self.perms@.len(),
                forall|k: int| 0 <= k < i ==> (#[trigger] self.perms@[k]).file_id != file_id,
            decreases self.perms@.len() - i,
        {
            let p = self.perms[i];
            if p.file_id == file_id {
                proof {
                    lemma_find_by_first(self.perms@, perm_file_pred(file_id), i as int);
                }
                return Some(p);
            }
            i += 1;
        }
        proof {
            lemma_find_by_characterizes(self.perms@, perm_file_pred(file_id));
        }
        None
    }

    /// How many permission rows `file_id` has in total.
    pub(crate) fn perm_count_of(&self, file_id: u128) -> (r: usize)
        ensures
            r == perm_count(self@.perms, file_id),
    {
        let mut i: usize = 0;
        let mut count: usize = 0;
        while i < self.perms.len()
            invariant
                i <= self.perms@.len(),
                count <= i,
                count == count_by(
                    self.perms@.subrange(0, i as int),
                    perm_file_pred(file_id),
                ),
            decreases self.perms@.len() - i,
        {
            proof {
                assert(self.perms@.subrange(0, i + 1).drop_last() =~= self.perms@.subrange(
                    0,
                    i as int,
                ));
                assert(self.perms@.subrange(0, i + 1).last() == self.perms@[i as int]);
            }
            if self.perms[i].file_id == file_id {
                count += 1;
            }
            i += 1;
        }
        proof {
            assert(self.perms@.subrange(0, self.perms@.len() as int) =~= self.perms@);
        }
        count
    }

    /// Does some file already carry this full name?
    pub(crate) fn fullname_in_use(&self, name: &String) -> (r: bool)
        ensures
            r == fullname_taken(self@.files, name@),
    {
        let mut i: usize = 0;
        while i < self.files.len()
            invariant
                i <= self.files@.len(),
                forall|k: int| 0 <= k < i ==> (#[trigger] self.files@[k]).fullname@ != name@,
            decreases self.files@.len() - i,
        {
            if self.files[i].fullname == *name {
                proof {
                    lemma_find_by_characterizes(self.files@, fullname_pred(name@));
                    assert(fullname_pred(name@)(self.files@[i as int]));
                }
                return true;
            }
            i += 1;
        }
        proof {
            lemma_find_by_characterizes(self.files@, fullname_pred(name@));
        }
        false
    }

    /// Does a file other than `keep_id` already carry this full name?
    pub(crate) fn fullname_in_use_by_other(&self, name: &String, keep_id: u128) -> (r: bool)
        ensures
            r == fullname_taken_by_other(self@.files, name@, keep_id),
    {
        let mut i: usize = 0;
        while i < self.files.len()
            invariant
                i <= self.files@.len(),
                forall|k: int|
                    0 <= k < i ==> !((#[trigger] self.files@[k]).id != keep_id
                        && self.files@[k].fullname@ == name@),
            decreases self.files@.len() - i,
        {
            if self.files[i].id != keep_id && self.files[i].fullname == *name {
                proof {
                    assert(fullname_other_pred(name@, keep_id)(self.files@[i as int]));
                }
                return true;
            }
            i += 1;
        }
        proof {
            lemma_find_by_characterizes(self.files@, fullname_other_pred(name@, keep_id));
        }
        false
    }

    /// The position of the mail row stored under `mail`, if any.
    pub(crate) fn mail_index(&self, mail: &String) -> (r: Option<usize>)
        ensures
            r matches Some(i) ==> i < self@.mails.len() && self@.mails[i as int].mail@ == mail@
                && find_mail(self@.mails, mail@) == Some(self@.mails[i as int]) && mail_taken(
                self@.mails,
                mail@,
            ),
            r is None ==> find_mail(self@.mails, mail@) is None && !mail_taken(
                self@.mails,
                mail@,
            ),
    {
        let mut i: usize = 0;
        while i < self.mails.len()
            invariant
                i <= self.mails@.len(),
                forall|k: int| 0 <= k < i ==> (#[trigger] self.mails@[k]).mail@ != mail@,
            decreases self.mails@.len() - i,
        {
            if self.mails[i].mail == *mail {
                proof {
                    lemma_find_by_first(self.mails@, mail_pred(mail@), i as int);
                    assert(mail_pred(mail@)(self.mails@[i as int]));
                }
                return Some(i);
            }
            i += 1;
        }
        proof {
            lemma_find_by_characterizes(self.mails@, mail_pred(mail@));
        }
        None
    }

    /// The owner's user name for `file_id`, if the owner row and the user
    /// both exist.
    pub(crate) fn owner_name_of(&self, file_id: u128) -> (r: Option<String>)
        ensures
            r == owner_name(self@, file_id),
    {
        match self.owner_row(file_id) {
            Some(p) => match self.user_index(p.user_account_id) {
                Some(i) => Some(self.users[i].user_name.clone()),
                None => None,
            },
            None => None,
        }
    }

    /// Fetches the file stored under `id`; `NotFound` exactly when no file
    /// carries that identifier.
    pub fn get_file(&self, id: u128) -> (r: Result<FileResponseModel, StoreError>)
        ensures
            match r {
                Ok(f) => find_file(self@.files, id) == Some(f),
                Err(e) => e == StoreError::NotFound && find_file(self@.files, id) is None,
            },
    {
        match self.file_index(id) {
            Some(i) => Ok(self.files[i].clone()),
            None => Err(StoreError::NotFound),
        }
    }

    /// Resolves the display owner name for a single file; `NotFound` exactly
    /// when the file has no resolvable owner.
    pub fn owner_lookup(&self, file_id: u128) -> (r: Result<String, StoreError>)
        ensures
            match r {
                Ok(n) => owner_name(self@, file_id) == Some(n),
                Err(e) => e == StoreError::NotFound && owner_name(self@, file_id) is None,
            },
    {
        match self.owner_name_of(file_id) {
            Some(n) => Ok(n),
            None => Err(StoreError::NotFound),
        }
    }
}

} // verus!
