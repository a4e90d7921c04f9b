//! Credential checks at login, and the session handed back on success.

use vstd::prelude::*;
use crate::grants::GrantStore;
use crate::menu::{build_menu_activation_map, MenuActivationMap};
use crate::model::{PermissionActionEnum, Role, User};
use crate::password::{argon2_accepts, check_password, phc_parses, PasswordCheck};
use crate::session::{claims_for, issue_claims, Claims, SESSION_LIFETIME_SECS};

verus! {

/// The accounts and roles that logins are checked against.
#[derive(Clone, Debug)]
pub struct UserDirectory {
    pub users: Vec<User>,
    pub roles: Vec<Role>,
}

/// Why a login is refused.
#[derive(Clone, Copy, Debug, PartialEq, Eq, Structural)]
pub enum AuthError {
    /// Unknown email or wrong password; the two are not told apart.
    InvalidCredentials,
    /// The user's stored hash is not a PHC string.
    InvalidStoredHash,
    /// The user's role id names no role.
    RoleNotFound,
    /// The clock reads outside the range a token expiry can hold.
    ClockOutOfRange,
}

impl AuthError {
    /// The HTTP status the error is answered with: only bad credentials are
    /// the caller's fault.
    pub fn status(&self) -> (r: u16)
        ensures
            r == if *self == AuthError::InvalidCredentials {
                401u16
            } else {
                500u16
            },
    {
        match self {
            AuthError::InvalidCredentials => 401,
            _ => 500,
        }
    }
}

/// The first index at or after `from` of a user with email `email`.
pub open spec fn find_email(users: Seq<User>, email: Seq<char>, from: int) -> Option<int>
    decreases users.len() - from,
{
    if from < 0 || from >= users.len() {
        None
    } else if users[from].email@ == email {
        Some(from)
    } else {
        find_email(users, email, from + 1)
    }
}

/// The first index at or after `from` of a role with id `id`.
pub open spec fn find_role(roles: Seq<Role>, id: i32, from: int) -> Option<int>
    decreases roles.len() - from,
{
    if from < 0 || from >= roles.len() {
        None
    } else if roles[from].id == id {
        Some(from)
    } else {
        find_role(roles, id, from + 1)
    }
}

/// A user found by `find_email` is in range and has that email, and no user
/// before it does.
pub proof fn lemma_find_email(users: Seq<User>, email: Seq<char>, from: int)
    requires
        0 <= from,
    ensures
        match find_email(users, email, from) {
            Some(i) => from <= i < users.len() && users[i].email@ == email && forall|j: int|
                from <= j < i ==> #[trigger] users[j].email@ != email,
            None => forall|j: int| from <= j < users.len() ==> #[trigger] users[j].email@ != email,
        },
    decreases users.len() - from,
{
    if from < users.len() && users[from].email@ != email {
        lemma_find_email(users, email, from + 1);
    }
}

/// A role found by `find_role` is in range and has that id.
pub proof fn lemma_find_role(roles: Seq<Role>, id: i32, from: int)
    requires
        0 <= from,
    ensures
        match find_role(roles, id, from) {
            Some(k) => from <= k < roles.len() && roles[k].id == id,
            None => forall|j: int| from <= j < roles.len() ==> #[trigger] roles[j].id != id,
        },
    decreases roles.len() - from,
{
    if from < roles.len() && roles[from].id != id {
        lemma_find_role(roles, id, from + 1);
    }
}

/// A successful login: the user, the role, the claims for the token, and
/// the menu activation map.
#[derive(Clone, Debug)]
pub struct Session {
    pub user_id: i32,
    pub name: String,
    pub email: String,
    pub role_id: i32,
    pub role_name: String,
    pub claims: Claims,
    pub menu_activation_map: MenuActivationMap,
}

impl UserDirectory {
    /// Emails are unique and so are role ids.
    pub open spec fn wf(self) -> bool {
        &&& forall|a: int, b: int|
            0 <= a < self.users@.len() && 0 <= b < self.users@.len() && a != b
                ==> #[trigger] self.users@[a].email@ != #[trigger] self.users@[b].email@
        &&& forall|a: int, b: int|
            0 <= a < self.roles@.len() && 0 <= b < self.roles@.len() && a != b
                ==> #[trigger] self.roles@[a].id != #[trigger] self.roles@[b].id
    }

    /// What a login with `email` and `password` comes to: the indices of the
    /// user and of the user's role, or the error.
    pub open spec fn login_outcome(self, email: Seq<char>, password: Seq<char>) -> Result<
        (int, int),
        AuthError,
    > {
        match find_email(self.users@, email, 0) {
            None => Err(AuthError::InvalidCredentials),
            Some(i) => {
                let phc = self.users@[i].password@;
                if !phc_parses(phc) {
                    Err(AuthError::InvalidStoredHash)
                } else if !argon2_accepts(password, phc) {
                    Err(AuthError::InvalidCredentials)
                } else {
                    match find_role(self.roles@, self.users@[i].role_id, 0) {
                        None => Err(AuthError::RoleNotFound),
                        Some(k) => Ok((i, k)),
                    }
                }
            },
        }
    }

    /// `s` is the session a login with `email` and `password` at unix time
    /// `now` issues.
    pub open spec fn issues(
        self,
        grants: GrantStore,
        email: Seq<char>,
        password: Seq<char>,
        now: int,
        s: Session,
    ) -> bool {
        match self.login_outcome(email, password) {
            Ok((i, k)) => {
                let user = self.users@[i];
                let role = self.roles@[k];
                &&& s.user_id == user.id
                &&& s.name@ == user.name@
                &&& s.email@ == user.email@
                &&& s.role_id == user.role_id
                &&& s.role_name@ == role.name@
                &&& claims_for(s.claims, user, now)
                &&& s.menu_activation_map.distinct()
                &&& forall|n: Seq<char>|
                    #![trigger s.menu_activation_map.has(n)]
                    s.menu_activation_map.has(n) <==> grants.grants(
                        user.role_id,
                        n,
                        PermissionActionEnum::Read,
                    )
            },
            Err(_) => false,
        }
    }

    pub(crate) fn user_by_email(&self, email: &String) -> (r: Option<usize>)
        ensures
            match r {
                Some(i) => find_email(self.users@, email@, 0) == Some(i as int),
                None => find_email(self.users@, email@, 0) is None,
            },
    {
        let mut i: usize = 0;
        while i < self.users.len()
            invariant
                i <= self.users@.len(),
                find_email(self.users@, email@, 0) == find_email(self.users@, email@, i as int),
            decreases self.users@.len() - i,
        {
            if self.users[i].email == *email {
                return Some(i);
            }
            i += 1;
        }
        None
    }

    fn role_by_id(&self, id: i32) -> (r: Option<usize>)
        ensures
            match r {
                Some(k) => find_role(self.roles@, id, 0) == Some(k as int),
                None => find_role(self.roles@, id, 0) is None,
            },
    {
        let mut k: usize = 0;
        while k < self.roles.len()
            invariant
                k <= self.roles@.len(),
                find_role(self.roles@, id, 0) == find_role(self.roles@, id, k as int),
            decreases self.roles@.len() - k,
        {
            if self.roles[k].id == id {
                return Some(k);
            }
            k += 1;
        }
        None
    }
}

/// Checks `email` and `password` against `directory` and, on success, issues
/// the session at unix time `now`, with the menu map read from `grants`.
pub fn authenticate(
    directory: &UserDirectory,
    grants: &GrantStore,
    email: &str,
    password: &str,
    now: usize,
) -> (r: Result<Session, AuthError>)
    requires
        now <= usize::MAX - SESSION_LIFETIME_SECS,
    ensures
        match r {
            Ok(s) => directory.issues(*grants, email@, password@, now as int, s),
            Err(e) => directory.login_outcome(email@, password@) == Err::<(int, int), AuthError>(e),
        },
{
    let wanted = email.to_owned();
    let i = match directory.user_by_email(&wanted) {
        Some(i) => i,
        None => return Err(AuthError::InvalidCredentials),
    };
    proof {
        lemma_find_email(directory.users@, email@, 0);
    }
    let user = &directory.users[i];
    match check_password(password, user.password.as_str()) {
        PasswordCheck::MalformedHash => return Err(AuthError::InvalidStoredHash),
        PasswordCheck::Mismatch => return Err(AuthError::InvalidCredentials),
        PasswordCheck::Match => {},
    }
    let k = match directory.role_by_id(user.role_id) {
        Some(k) => k,
        None => return Err(AuthError::RoleNotFound),
    };
    proof {
        lemma_find_role(directory.roles@, user.role_id, 0);
    }
    let role = &directory.roles[k];
    let menu_activation_map = build_menu_activation_map(grants, user.role_id);
    Ok(
        Session {
            user_id: user.id,
            name: user.name.clone(),
            email: user.email.clone(),
            role_id: user.role_id,
            role_name: role.name.clone(),
            claims: issue_claims(user, now),
            menu_activation_map,
        },
    )
}

/// Relies on `std::time::SystemTime::now` and `duration_since(UNIX_EPOCH)`:
/// the whole seconds since the unix epoch, or `None` when the clock reads
/// before it. Nothing is known of the value.
#[verifier::external_body]
fn unix_now() -> (r: Option<u64>) {
    std::time::SystemTime::now().duration_since(std::time::UNIX_EPOCH).ok().map(|d| d.as_secs())
}

/// `authenticate` at the clock reading `t`, unix seconds. A reading that no
/// token expiry can hold gives `ClockOutOfRange`.
pub fn authenticate_at(
    directory: &UserDirectory,
    grants: &GrantStore,
    email: &str,
    password: &str,
    t: u64,
) -> (r: Result<Session, AuthError>)
    ensures
        if t <= usize::MAX - SESSION_LIFETIME_SECS {
            match r {
                Ok(s) => directory.issues(*grants, email@, password@, t as int, s),
                Err(e) => directory.login_outcome(email@, password@) == Err::<(int, int), AuthError>(e),
            }
        } else {
            r == Err::<Session, AuthError>(AuthError::ClockOutOfRange)
        },
{
    if t > (usize::MAX - SESSION_LIFETIME_SECS) as u64 {
        return Err(AuthError::ClockOutOfRange);
    }
    authenticate(directory, grants, email, password, t as usize)
}

/// `authenticate` at the current time. A clock that cannot be read, or whose
/// reading no token expiry can hold, gives `ClockOutOfRange`.
pub fn authenticate_now(
    directory: &UserDirectory,
    grants: &GrantStore,
    email: &str,
    password: &str,
) -> (r: Result<Session, AuthError>)
    ensures
        match r {
            Ok(s) => exists|now: int| 0 <= now && directory.issues(*grants, email@, password@, now, s),
            Err(AuthError::ClockOutOfRange) => true,
            Err(e) => directory.login_outcome(email@, password@) == Err::<(int, int), AuthError>(e),
        },
{
    let r = match unix_now() {
        Some(t) => authenticate_at(directory, grants, email, password, t),
        None => Err(AuthError::ClockOutOfRange),
    };
    proof {
        if r is Err {
            lemma_login_errors_are_not_clock(*directory, email@, password@);
        }
    }
    r
}

/// No login outcome is a clock fault.
proof fn lemma_login_errors_are_not_clock(directory: UserDirectory, email: Seq<char>, password: Seq<char>)
    ensures
        directory.login_outcome(email, password) != Err::<(int, int), AuthError>(
            AuthError::ClockOutOfRange,
        ),
{
}

/// The body of a login request.
#[derive(Clone, Debug)]
pub struct LoginRequest {
    pub email: String,
    pub password: String,
}

/// The answer to a successful login: who logged in, the signed token, and the
/// menu activation map.
#[derive(Clone, Debug)]
pub struct LoginResponse {
    pub user_id: i32,
    pub name: String,
    pub email: String,
    pub role_id: i32,
    pub role_name: String,
    pub token: String,
    pub menu_activation_map: MenuActivationMap,
}

impl LoginResponse {
    /// The response for `session`, with `token` the signed form of its claims.
    pub fn new(session: Session, token: String) -> (r: LoginResponse)
        ensures
            r.user_id == session.user_id,
            r.name == session.name,
            r.email == session.email,
            r.role_id == session.role_id,
            r.role_name == session.role_name,
            r.token == token,
            r.menu_activation_map == session.menu_activation_map,
    {
        LoginResponse {
            user_id: session.user_id,
            name: session.name,
            email: session.email,
            role_id: session.role_id,
            role_name: session.role_name,
            token,
            menu_activation_map: session.menu_activation_map,
        }
    }
}

} // verus!
