//! User accounts: creation with one mail address, lookup by mail, and the
//! paginated user listing.

use vstd::prelude::*;

use crate::ambient::fresh_id;
use crate::model::{CreateUser, GetIdSchema, StoreError, UserMail, UserModel};
use crate::pagination::{window, window_of};
use crate::store::{
    distinct_mails, distinct_user_ids, find_mail, has_user_id, lemma_has_match_push, mail_pred,
    mail_taken, mails_reference, perms_reference, user_id_pred, wf, Store, StoreView,
};

verus! {

impl Store {
    /// Creates a user row and its mail row together, under a
    /// caller-supplied identifier.
    ///
    /// Fails with `DuplicateKey` iff the identifier or the mail address is
    /// already taken; a failed call leaves the store unchanged.
    pub fn create_user_with_id(&mut self, id: u128, body: &CreateUser) -> (r: Result<
        GetIdSchema,
        StoreError,
    >)
        requires
            wf(old(self)@),
        ensures
            wf(final(self)@),
            match r {
                Ok(g) => {
                    &&& g.id == id
                    &&& !has_user_id(old(self)@.users, id)
                    &&& !mail_taken(old(self)@.mails, body.mail@)
                    &&& final(self)@ == old(self)@.with_users_mails(
                        old(self)@.users.push((UserModel { id, user_name: body.user_name })),
                        old(self)@.mails.push(
                            (UserMail { user_account_id: id, mail: body.mail }),
                        ),
                    )
                },
                Err(StoreError::DuplicateKey) => (has_user_id(old(self)@.users, id) || mail_taken(
                    old(self)@.mails,
                    body.mail@,
                )) && final(self)@ == old(self)@,
                Err(StoreError::NotFound) => false,
                Err(StoreError::InvalidReference) => false,
            },
    {
        if self.user_index(id).is_some() {
            return Err(StoreError::DuplicateKey);
        }
        if self.mail_index(&body.mail).is_some() {
            return Err(StoreError::DuplicateKey);
        }
        let user = UserModel { id, user_name: body.user_name.clone() };
        let mail = UserMail { user_account_id: id, mail: body.mail.clone() };
        proof {
            lemma_create_user_preserves_wf(self@, user, mail);
        }
        self.users.push(user);
        self.mails.push(mail);
        Ok(GetIdSchema { id })
    }

    /// Creates a user under a freshly drawn identifier.
    ///
    /// A taken mail address always fails with `DuplicateKey`; a collision
    /// of the freshly drawn identifier is reported the same way. A failed
    /// call leaves the store unchanged.
    pub fn create_user(&mut self, body: &CreateUser) -> (r: Result<GetIdSchema, StoreError>)
        requires
            wf(old(self)@),
        ensures
            wf(final(self)@),
            match r {
                Ok(g) => {
                    &&& !has_user_id(old(self)@.users, g.id)
                    &&& !mail_taken(old(self)@.mails, body.mail@)
                    &&& final(self)@ == old(self)@.with_users_mails(
                        old(self)@.users.push(
                            (UserModel { id: g.id, user_name: body.user_name }),
                        ),
                        old(self)@.mails.push(
                            (UserMail { user_account_id: g.id, mail: body.mail }),
                        ),
                    )
                },
                Err(StoreError::DuplicateKey) => final(self)@ == old(self)@,
                Err(StoreError::NotFound) => false,
                Err(StoreError::InvalidReference) => false,
            },
            mail_taken(old(self)@.mails, body.mail@) ==> (r matches Err(e) && e
                == StoreError::DuplicateKey),
    {
        let id = fresh_id();
        self.create_user_with_id(id, body)
    }

    /// Resolves a mail address to the identifier of the user holding it;
    /// `NotFound` exactly when no mail row carries the address.
    pub fn user_by_mail(&self, mail: &String) -> (r: Result<GetIdSchema, StoreError>)
        ensures
            match r {
                Ok(g) => find_mail(self@.mails, mail@) matches Some(m) && g.id
                    == m.user_account_id,
                Err(e) => e == StoreError::NotFound && find_mail(self@.mails, mail@) is None,
            },
    {
        match self.mail_index(mail) {
            Some(i) => Ok(GetIdSchema { id: self.mails[i].user_account_id }),
            None => Err(StoreError::NotFound),
        }
    }

    /// The requested page of the user listing, in stored order.
    pub fn user_listing(&self, page: usize, limit: usize) -> (r: Vec<UserModel>)
        requires
            page >= 1,
            limit >= 1,
        ensures
            r@ == window_of(self@.users, page as int, limit as int),
    {
        let mut all: Vec<UserModel> = Vec::new();
        let mut i: usize = 0;
        while i < self.users.len()
            invariant
                i <= self.users@.len(),
                all@ == self.users@.subrange(0, i as int),
            decreases self.users@.len() - i,
        {
            all.push(self.users[i].clone());
            proof {
                assert(all@ =~= self.users@.subrange(0, i + 1));
            }
            i += 1;
        }
        proof {
            assert(all@ =~= self.users@);
        }
        window(all, page, limit)
    }
}

/// Pushing a fresh user row and its fresh mail row keeps the store well
/// formed.
proof fn lemma_create_user_preserves_wf(s: StoreView, user: UserModel, mail: UserMail)
    requires
        wf(s),
        !has_user_id(s.users, user.id),
        !mail_taken(s.mails, mail.mail@),
        mail.user_account_id == user.id,
    ensures
        wf(s.with_users_mails(s.users.push(user), s.mails.push(mail))),
{
    let users2 = s.users.push(user);
    let mails2 = s.mails.push(mail);
    assert forall|k: int| 0 <= k < s.users.len() implies s.users[k].id != user.id by {
        assert(!user_id_pred(user.id)(s.users[k]));
    }
    assert(distinct_user_ids(users2));
    assert forall|k: int| 0 <= k < s.mails.len() implies s.mails[k].mail@ != mail.mail@ by {
        assert(!mail_pred(mail.mail@)(s.mails[k]));
    }
    assert(distinct_mails(mails2));
    assert forall|k: int| 0 <= k < mails2.len() implies has_user_id(
        users2,
        (#[trigger] mails2[k]).user_account_id,
    ) by {
        if k < s.mails.len() {
            lemma_has_match_push(s.users, user_id_pred(s.mails[k].user_account_id), user);
        } else {
            assert(user_id_pred(user.id)(users2[s.users.len() as int]));
        }
    }
    assert(mails_reference(users2, mails2));
    assert forall|k: int| 0 <= k < s.perms.len() implies has_user_id(
        users2,
        (#[trigger] s.perms[k]).user_account_id,
    ) by {
        lemma_has_match_push(s.users, user_id_pred(s.perms[k].user_account_id), user);
    }
    assert(perms_reference(s.files, users2, s.perms));
}

} // verus!
