//! Entities and request/response shapes of the file store.
//!
//! Identifiers are 128-bit integers (the numeric value of a UUID); timestamps
//! are microseconds since the Unix epoch; ratings are stored in thousandths of
//! a rating point, so that every field is a plain value the contracts can
//! speak about.

use vstd::prelude::*;

verus! {

/// The role a user holds on a file.
#[derive(Clone, Copy, PartialEq, Eq, Structural, Debug)]
pub enum Role {
    Owner,
    Download,
    View,
}

impl Role {
    /// A role grants download access iff it is `Owner` or `Download`.
    pub open spec fn grants_download(self) -> bool {
        self == Role::Owner || self == Role::Download
    }
}

/// How an operation on the store fails.
#[derive(Clone, Copy, PartialEq, Eq, Structural, Debug)]
pub enum StoreError {
    /// The addressed entity is absent, or a deletion affected zero rows.
    NotFound,
    /// A uniqueness constraint (identifier, fullname, mail, permission pair)
    /// would be violated.
    DuplicateKey,
    /// A referenced entity (owner user, file or user of a permission row)
    /// does not exist.
    InvalidReference,
}

/// A stored file record, as returned by single-record operations.
#[derive(Debug)]
pub struct FileResponseModel {
    pub id: u128,
    pub fullname: String,
    /// Microseconds since the Unix epoch, set at creation.
    pub created: i64,
    pub sizebytes: i64,
    pub downloads: i32,
    /// Thousandths of a rating point.
    pub average_rating: i32,
    pub is_downloadable: bool,
    pub is_public: bool,
}

impl Clone for FileResponseModel {
    fn clone(&self) -> (r: Self)
        ensures
            r == *self,
    {
        FileResponseModel {
            id: self.id,
            fullname: self.fullname.clone(),
            created: self.created,
            sizebytes: self.sizebytes,
            downloads: self.downloads,
            average_rating: self.average_rating,
            is_downloadable: self.is_downloadable,
            is_public: self.is_public,
        }
    }
}

/// A row of the public listing: a file joined to its owner's user name;
/// downloadability is the stored flag.
#[derive(Debug)]
pub struct FilePublicResponseModel {
    pub id: u128,
    pub fullname: String,
    pub created: i64,
    pub sizebytes: i64,
    pub downloads: i32,
    pub average_rating: i32,
    pub owner: String,
    pub is_downloadable: bool,
}

impl Clone for FilePublicResponseModel {
    fn clone(&self) -> (r: Self)
        ensures
            r == *self,
    {
        FilePublicResponseModel {
            id: self.id,
            fullname: self.fullname.clone(),
            created: self.created,
            sizebytes: self.sizebytes,
            downloads: self.downloads,
            average_rating: self.average_rating,
            owner: self.owner.clone(),
            is_downloadable: self.is_downloadable,
        }
    }
}

/// A row of a per-viewer listing: a file joined to its owner's user name;
/// downloadability is derived from the viewer's own role.
#[derive(Debug)]
pub struct FilePrivateResponseModel {
    pub id: u128,
    pub fullname: String,
    pub created: i64,
    pub sizebytes: i64,
    pub downloads: i32,
    pub average_rating: i32,
    pub owner: String,
    pub is_downloadable: bool,
}

impl Clone for FilePrivateResponseModel {
    fn clone(&self) -> (r: Self)
        ensures
            r == *self,
    {
        FilePrivateResponseModel {
            id: self.id,
            fullname: self.fullname.clone(),
            created: self.created,
            sizebytes: self.sizebytes,
            downloads: self.downloads,
            average_rating: self.average_rating,
            owner: self.owner.clone(),
            is_downloadable: self.is_downloadable,
        }
    }
}

/// A user account.
#[derive(Debug)]
pub struct UserModel {
    pub id: u128,
    pub user_name: String,
}

impl Clone for UserModel {
    fn clone(&self) -> (r: Self)
        ensures
            r == *self,
    {
        UserModel { id: self.id, user_name: self.user_name.clone() }
    }
}

/// A mail address attached to a user account.
#[derive(Debug)]
pub struct UserMail {
    pub user_account_id: u128,
    pub mail: String,
}

/// A permission row: `user_account_id` holds `role` on `file_id`.
#[derive(Clone, Copy, PartialEq, Eq, Structural, Debug)]
pub struct FilePermission {
    pub user_account_id: u128,
    pub role: Role,
    pub file_id: u128,
}

/// Request body for creating a file together with its owner permission.
pub struct CreateFile {
    pub fullname: String,
    pub sizebytes: i64,
    pub owner_user_id: u128,
    pub is_downloadable: bool,
    pub is_public: bool,
}

/// A partial update: an absent field keeps the stored value.
pub struct UpdateFile {
    pub fullname: Option<String>,
    pub downloads: Option<i32>,
    /// Thousandths of a rating point.
    pub average_rating: Option<i32>,
}

/// Request body for creating a user with one mail address.
pub struct CreateUser {
    pub user_name: String,
    pub mail: String,
}

/// Request body for granting a role on a file.
#[derive(Clone, Copy, PartialEq, Eq, Structural, Debug)]
pub struct CreateFilePermissionSchema {
    pub user_account_pk: u128,
    pub roles_pk: Role,
    pub files_pk: u128,
}

/// A bare identifier response.
#[derive(Clone, Copy, PartialEq, Eq, Structural, Debug)]
pub struct GetIdSchema {
    pub id: u128,
}

/// A bare identifier carried as text.
#[derive(Debug)]
pub struct IdSchema {
    pub id: String,
}

/// A path parameter carried as text.
#[derive(Debug)]
pub struct ParamOptions {
    pub id: String,
}

} // verus!
