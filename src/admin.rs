//! Administration of roles, users and the catalog: the query and body types of
//! those endpoints, and the validation and patch rules they apply.

use vstd::prelude::*;
use crate::login::{lemma_find_email, UserDirectory};
use crate::model::{DataObject, Role, User};
use crate::paging::ListQuery;
use crate::password::{
    argon2_accepts, hash_password_with_salt, password_fits, phc_parses, random_salt, salt_fits,
};
use crate::session::RequestError;
use crate::text::{normalize_name, trimmed};

verus! {

/// Query of the role listing.
#[derive(Clone, Debug)]
pub struct RoleListQuery {
    pub base: ListQuery,
}

/// Query of the user listing.
#[derive(Clone, Debug)]
pub struct UserListQuery {
    pub base: ListQuery,
}

/// Query of the grant listing.
#[derive(Clone, Debug)]
pub struct RolePermissionListQuery {
    pub base: ListQuery,
}

/// Query of the data object listing.
#[derive(Clone, Debug)]
pub struct DataObjectListQuery {
    pub base: ListQuery,
}

/// A data object as listed.
#[derive(Clone, Debug)]
pub struct DataObjectRow {
    pub id: i32,
    pub name: String,
}

impl DataObjectRow {
    /// The listed form of `object`.
    pub fn from_data_object(object: &DataObject) -> (r: DataObjectRow)
        ensures
            r.id == object.id,
            r.name@ == object.name@,
    {
        DataObjectRow { id: object.id, name: object.name.clone() }
    }
}

/// Body of a role creation.
#[derive(Clone, Debug)]
pub struct CreateRoleRequest {
    pub name: String,
    pub description: String,
    pub active: Option<bool>,
}

/// Body of a role update; absent fields stay as they are.
#[derive(Clone, Debug)]
pub struct PatchRoleRequest {
    pub name: Option<String>,
    pub description: Option<String>,
    pub active: Option<bool>,
}

/// The stored fields of a role about to be created.
#[derive(Clone, Debug)]
pub struct RoleFields {
    pub name: String,
    pub description: String,
    pub active: bool,
}

impl CreateRoleRequest {
    /// The role to create: name and description without surrounding white
    /// space, neither empty, active unless asked otherwise.
    pub fn validate(&self) -> (r: Result<RoleFields, RequestError>)
        ensures
            match r {
                Ok(f) => {
                    &&& trimmed(self.name@).len() > 0
                    &&& trimmed(self.description@).len() > 0
                    &&& f.name@ == trimmed(self.name@)
                    &&& f.description@ == trimmed(self.description@)
                    &&& f.active == match self.active {
                        Some(a) => a,
                        None => true,
                    }
                },
                Err(e) => e == RequestError::BadRequest && (trimmed(self.name@).len() == 0
                    || trimmed(self.description@).len() == 0),
            },
    {
        let name = match normalize_name(self.name.as_str()) {
            Some(n) => n,
            None => return Err(RequestError::BadRequest),
        };
        let description = match normalize_name(self.description.as_str()) {
            Some(d) => d,
            None => return Err(RequestError::BadRequest),
        };
        let active = match self.active {
            Some(a) => a,
            None => true,
        };
        Ok(RoleFields { name, description, active })
    }
}

/// The text a patch field sets: `None` to keep the old value, `Some` with the
/// trimmed text otherwise.
pub open spec fn patched_text(field: Option<String>, old: Seq<char>) -> Seq<char> {
    match field {
        Some(v) => trimmed(v@),
        None => old,
    }
}

impl PatchRoleRequest {
    /// `role` with the fields of the patch applied; a name or description that
    /// is blank once trimmed is a bad request.
    pub fn apply(&self, role: &Role) -> (r: Result<Role, RequestError>)
        ensures
            match r {
                Ok(updated) => {
                    &&& !(self.name is Some && trimmed(self.name->Some_0@).len() == 0)
                    &&& !(self.description is Some && trimmed(self.description->Some_0@).len()
                        == 0)
                    &&& updated.id == role.id
                    &&& updated.name@ == patched_text(self.name, role.name@)
                    &&& updated.description@ == patched_text(self.description, role.description@)
                    &&& updated.active == match self.active {
                        Some(a) => a,
                        None => role.active,
                    }
                },
                Err(e) => e == RequestError::BadRequest && ((self.name is Some && trimmed(
                    self.name->Some_0@,
                ).len() == 0) || (self.description is Some && trimmed(
                    self.description->Some_0@,
                ).len() == 0)),
            },
    {
        let name = match &self.name {
            Some(n) => match normalize_name(n.as_str()) {
                Some(t) => t,
                None => return Err(RequestError::BadRequest),
            },
            None => role.name.clone(),
        };
        let description = match &self.description {
            Some(d) => match normalize_name(d.as_str()) {
                Some(t) => t,
                None => return Err(RequestError::BadRequest),
            },
            None => role.description.clone(),
        };
        let active = match self.active {
            Some(a) => a,
            None => role.active,
        };
        Ok(Role { id: role.id, name, description, active })
    }
}

/// The default of a user's `active` flag when a creation omits it.
pub fn default_active_true() -> (r: bool)
    ensures
        r,
{
    true
}

/// Body of a user creation.
#[derive(Clone, Debug)]
pub struct CreateUserRequest {
    pub name: String,
    pub email: String,
    pub password: String,
    pub role_id: i32,
    pub active: bool,
}

/// Body of a user update; absent or blank fields stay as they are.
#[derive(Clone, Debug)]
pub struct PatchUserRequest {
    pub name: Option<String>,
    pub email: Option<String>,
    pub password: Option<String>,
    pub role_id: Option<i32>,
    pub active: Option<bool>,
}

/// The stored fields of a user about to be created; `password` is the hash.
#[derive(Clone, Debug)]
pub struct NewUser {
    pub name: String,
    pub email: String,
    pub password: String,
    pub role_id: i32,
    pub active: bool,
}

impl UserDirectory {
    /// Some user has email `email`.
    pub open spec fn has_email(self, email: Seq<char>) -> bool {
        exists|i: int| 0 <= i < self.users@.len() && #[trigger] self.users@[i].email@ == email
    }

    fn email_taken(&self, email: &String) -> (r: bool)
        ensures
            r == self.has_email(email@),
    {
        proof {
            lemma_find_email(self.users@, email@, 0);
        }
        self.user_by_email(email).is_some()
    }
}

/// A patch text that counts: present and not blank once trimmed.
pub open spec fn given_text(field: Option<String>) -> bool {
    field is Some && trimmed(field->Some_0@).len() > 0
}

impl CreateUserRequest {
    /// Name and email are not blank once trimmed, and the password is not
    /// empty.
    pub open spec fn fields_given(self) -> bool {
        trimmed(self.name@).len() > 0 && trimmed(self.email@).len() > 0 && self.password@.len() > 0
    }

    /// The user to create, with the password hashed under `salt`: name and
    /// email trimmed and not blank, a password that is not empty, and an email
    /// no user has yet. A salt or password that hashing does not take is an
    /// internal fault.
    pub fn validate_with_salt(&self, directory: &UserDirectory, salt: &[u8]) -> (r: Result<
        NewUser,
        RequestError,
    >)
        ensures
            match r {
                Ok(u) => {
                    &&& self.fields_given()
                    &&& !directory.has_email(trimmed(self.email@))
                    &&& salt_fits(salt@)
                    &&& password_fits(self.password@)
                    &&& u.name@ == trimmed(self.name@)
                    &&& u.email@ == trimmed(self.email@)
                    &&& u.role_id == self.role_id
                    &&& u.active == self.active
                    &&& phc_parses(u.password@)
                    &&& argon2_accepts(self.password@, u.password@)
                },
                Err(RequestError::BadRequest) => !self.fields_given(),
                Err(RequestError::Conflict) => self.fields_given() && directory.has_email(
                    trimmed(self.email@),
                ),
                Err(RequestError::Internal) => self.fields_given() && !directory.has_email(
                    trimmed(self.email@),
                ) && !(salt_fits(salt@) && password_fits(self.password@)),
                Err(_) => false,
            },
    {
        let name = match normalize_name(self.name.as_str()) {
            Some(n) => n,
            None => return Err(RequestError::BadRequest),
        };
        let email = match normalize_name(self.email.as_str()) {
            Some(e) => e,
            None => return Err(RequestError::BadRequest),
        };
        if self.password.as_str().is_empty() {
            return Err(RequestError::BadRequest);
        }
        if directory.email_taken(&email) {
            return Err(RequestError::Conflict);
        }
        let password = match hash_password_with_salt(self.password.as_str(), salt) {
            Ok(h) => h,
            Err(_) => return Err(RequestError::Internal),
        };
        Ok(NewUser { name, email, password, role_id: self.role_id, active: self.active })
    }

    /// `validate_with_salt` under a fresh random salt. `Internal` comes only
    /// after every check on the request passed: from an over-long password, or
    /// from a random source that gave no salt.
    pub fn validate(&self, directory: &UserDirectory) -> (r: Result<NewUser, RequestError>)
        ensures
            match r {
                Ok(u) => {
                    &&& self.fields_given()
                    &&& !directory.has_email(trimmed(self.email@))
                    &&& password_fits(self.password@)
                    &&& u.name@ == trimmed(self.name@)
                    &&& u.email@ == trimmed(self.email@)
                    &&& u.role_id == self.role_id
                    &&& u.active == self.active
                    &&& phc_parses(u.password@)
                    &&& argon2_accepts(self.password@, u.password@)
                },
                Err(RequestError::BadRequest) => !self.fields_given(),
                Err(RequestError::Conflict) => self.fields_given() && directory.has_email(
                    trimmed(self.email@),
                ),
                Err(RequestError::Internal) => self.fields_given() && !directory.has_email(
                    trimmed(self.email@),
                ),
                Err(_) => false,
            },
            self.fields_given() && !directory.has_email(trimmed(self.email@)) && !password_fits(
                self.password@,
            ) ==> r == Err::<NewUser, RequestError>(RequestError::Internal),
    {
        // With no salt from the random source, the empty salt makes hashing
        // fail, which is reported as `Internal` once the checks have passed.
        let salt = match random_salt() {
            Some(bytes) => bytes,
            None => Vec::new(),
        };
        self.validate_with_salt(directory, salt.as_slice())
    }
}

impl PatchUserRequest {
    /// The new email is given, differs from the user's, and another user has
    /// it.
    pub open spec fn email_conflict(self, directory: UserDirectory, user: User) -> bool {
        given_text(self.email) && trimmed(self.email->Some_0@) != user.email@
            && directory.has_email(trimmed(self.email->Some_0@))
    }

    /// `user` with the patch applied, a new password hashed under `salt`.
    /// Blank texts change nothing; a new email that another user has is a
    /// conflict; a new password is stored as the Argon2 hash of its trimmed
    /// text, and one that hashing does not take is an internal fault.
    pub fn apply_with_salt(&self, directory: &UserDirectory, user: &User, salt: &[u8]) -> (r:
        Result<User, RequestError>)
        ensures
            match r {
                Ok(updated) => {
                    &&& !self.email_conflict(*directory, *user)
                    &&& updated.id == user.id
                    &&& updated.name@ == if given_text(self.name) {
                        trimmed(self.name->Some_0@)
                    } else {
                        user.name@
                    }
                    &&& updated.email@ == if given_text(self.email) {
                        trimmed(self.email->Some_0@)
                    } else {
                        user.email@
                    }
                    &&& updated.role_id == match self.role_id {
                        Some(id) => id,
                        None => user.role_id,
                    }
                    &&& updated.active == match self.active {
                        Some(a) => a,
                        None => user.active,
                    }
                    &&& if given_text(self.password) {
                        salt_fits(salt@) && password_fits(trimmed(self.password->Some_0@))
                            && phc_parses(updated.password@) && argon2_accepts(
                            trimmed(self.password->Some_0@),
                            updated.password@,
                        )
                    } else {
                        updated.password@ == user.password@
                    }
                },
                Err(RequestError::Conflict) => self.email_conflict(*directory, *user),
                Err(RequestError::Internal) => !self.email_conflict(*directory, *user)
                    && given_text(self.password) && !(salt_fits(salt@) && password_fits(
                    trimmed(self.password->Some_0@),
                )),
                Err(_) => false,
            },
    {
        let name = match &self.name {
            Some(n) => match normalize_name(n.as_str()) {
                Some(t) => t,
                None => user.name.clone(),
            },
            None => user.name.clone(),
        };
        let email = match &self.email {
            Some(e) => match normalize_name(e.as_str()) {
                Some(t) => {
                    if !(t == user.email) && directory.email_taken(&t) {
                        return Err(RequestError::Conflict);
                    }
                    t
                },
                None => user.email.clone(),
            },
            None => user.email.clone(),
        };
        let password = match &self.password {
            Some(p) => match normalize_name(p.as_str()) {
                Some(t) => match hash_password_with_salt(t.as_str(), salt) {
                    Ok(h) => h,
                    Err(_) => return Err(RequestError::Internal),
                },
                None => user.password.clone(),
            },
            None => user.password.clone(),
        };
        let role_id = match self.role_id {
            Some(id) => id,
            None => user.role_id,
        };
        let active = match self.active {
            Some(a) => a,
            None => user.active,
        };
        Ok(User { id: user.id, name, email, password, role_id, active })
    }

    /// `apply_with_salt` under a fresh random salt. A taken email is always a
    /// conflict; `Internal` comes only when there is none and a new password
    /// is given.
    pub fn apply(&self, directory: &UserDirectory, user: &User) -> (r: Result<User, RequestError>)
        ensures
            match r {
                Ok(updated) => {
                    &&& !self.email_conflict(*directory, *user)
                    &&& updated.id == user.id
                    &&& updated.name@ == if given_text(self.name) {
                        trimmed(self.name->Some_0@)
                    } else {
                        user.name@
                    }
                    &&& updated.email@ == if given_text(self.email) {
                        trimmed(self.email->Some_0@)
                    } else {
                        user.email@
                    }
                    &&& updated.role_id == match self.role_id {
                        Some(id) => id,
                        None => user.role_id,
                    }
                    &&& updated.active == match self.active {
                        Some(a) => a,
                        None => user.active,
                    }
                    &&& if given_text(self.password) {
                        phc_parses(updated.password@) && argon2_accepts(
                            trimmed(self.password->Some_0@),
                            updated.password@,
                        )
                    } else {
                        updated.password@ == user.password@
                    }
                },
                Err(RequestError::Conflict) => self.email_conflict(*directory, *user),
                Err(RequestError::Internal) => !self.email_conflict(*directory, *user)
                    && given_text(self.password),
                Err(_) => false,
            },
    {
        // With no salt from the random source, the empty salt makes hashing
        // fail, which is reported as `Internal`.
        let salt = match random_salt() {
            Some(bytes) => bytes,
            None => Vec::new(),
        };
        self.apply_with_salt(directory, user, salt.as_slice())
    }
}

} // verus!
