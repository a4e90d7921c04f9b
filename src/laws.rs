//! Properties that tie the authenticator, the authorizer and the menu map
//! together.

use vstd::prelude::*;
use crate::grants::GrantStore;
use crate::login::{find_email, lemma_find_email, lemma_find_role, AuthError, Session, UserDirectory};
use crate::admin::NewUser;
use crate::menu::MenuActivationMap;
use crate::model::{PermissionActionEnum, RolePermission, User};
use crate::password::{argon2_accepts, phc_parses};

verus! {

/// A login with the email and the accepted password of a stored user whose
/// role exists succeeds, and the session it issues carries that user's role id
/// and email in its claims.
pub proof fn lemma_valid_login_carries_identity(
    directory: UserDirectory,
    grants: GrantStore,
    i: int,
    password: Seq<char>,
    now: int,
)
    requires
        directory.wf(),
        0 <= i < directory.users@.len(),
        phc_parses(directory.users@[i].password@),
        argon2_accepts(password, directory.users@[i].password@),
        exists|k: int|
            0 <= k < directory.roles@.len() && #[trigger] directory.roles@[k].id
                == directory.users@[i].role_id,
    ensures
        directory.login_outcome(directory.users@[i].email@, password) is Ok,
        forall|s: Session|
            #![trigger directory.issues(grants, directory.users@[i].email@, password, now, s)]
            directory.issues(grants, directory.users@[i].email@, password, now, s) ==> {
                &&& s.claims.role_id == directory.users@[i].role_id
                &&& s.claims.email@ == directory.users@[i].email@
                &&& s.claims.sub == directory.users@[i].id
                &&& s.role_id == directory.users@[i].role_id
                &&& s.email@ == directory.users@[i].email@
                &&& s.user_id == directory.users@[i].id
            },
{
    let email = directory.users@[i].email@;
    lemma_find_email(directory.users@, email, 0);
    let j = find_email(directory.users@, email, 0)->Some_0;
    assert(j == i) by {
        if j != i {
            assert(directory.users@[j].email@ != directory.users@[i].email@);
        }
    }
    lemma_find_role(directory.roles@, directory.users@[i].role_id, 0);
}

/// A password that Argon2 does not accept for the stored user with that email
/// is refused with `InvalidCredentials`, the same answer as for an email that
/// no user has.
pub proof fn lemma_wrong_password_refused(
    directory: UserDirectory,
    email: Seq<char>,
    password: Seq<char>,
)
    requires
        forall|i: int|
            0 <= i < directory.users@.len() && #[trigger] directory.users@[i].email@ == email
                ==> phc_parses(directory.users@[i].password@) && !argon2_accepts(
                password,
                directory.users@[i].password@,
            ),
    ensures
        directory.login_outcome(email, password) == Err::<(int, int), AuthError>(
            AuthError::InvalidCredentials,
        ),
{
    lemma_find_email(directory.users@, email, 0);
}

/// A login with an email that no user has and a login with a stored user's
/// email and a password Argon2 does not accept for it come to the same
/// answer, `InvalidCredentials`: nothing tells the two apart.
pub proof fn lemma_unknown_email_like_wrong_password(
    directory: UserDirectory,
    unknown_email: Seq<char>,
    any_password: Seq<char>,
    i: int,
    wrong_password: Seq<char>,
)
    requires
        forall|j: int|
            0 <= j < directory.users@.len() ==> #[trigger] directory.users@[j].email@
                != unknown_email,
        directory.wf(),
        0 <= i < directory.users@.len(),
        phc_parses(directory.users@[i].password@),
        !argon2_accepts(wrong_password, directory.users@[i].password@),
    ensures
        directory.login_outcome(unknown_email, any_password) == directory.login_outcome(
            directory.users@[i].email@,
            wrong_password,
        ),
        directory.login_outcome(unknown_email, any_password) == Err::<(int, int), AuthError>(
            AuthError::InvalidCredentials,
        ),
{
    lemma_find_email(directory.users@, unknown_email, 0);
    let email = directory.users@[i].email@;
    lemma_find_email(directory.users@, email, 0);
    let j = find_email(directory.users@, email, 0)->Some_0;
    if j != i {
        assert(directory.users@[j].email@ != directory.users@[i].email@);
    }
}

/// A role holds an action on a resource exactly when an active edge joins it
/// to a permission for that pair.
pub proof fn lemma_grant_iff_active_edge(
    store: GrantStore,
    role_id: i32,
    name: Seq<char>,
    action: PermissionActionEnum,
)
    ensures
        store.grants(role_id, name, action) <==> exists|i: int|
            0 <= i < store.role_permissions@.len() && #[trigger] store.edge_links(
                i,
                role_id,
                name,
                action,
            ) && store.role_permissions@[i].active,
{
}

/// In a well-formed store, setting the `active` flag of the edge that joins a
/// role to a permission for (`name`, `action`) makes the role hold that pair
/// exactly when the flag is set.
pub proof fn lemma_toggling_edge_flips_grant(
    before: GrantStore,
    after: GrantStore,
    i: int,
    name: Seq<char>,
    action: PermissionActionEnum,
    active: bool,
)
    requires
        before.wf(),
        0 <= i < before.role_permissions@.len(),
        before.edge_links(i, before.role_permissions@[i].role_id, name, action),
        after.toggled_from(before, before.role_permissions@[i].id, active),
    ensures
        after.grants(before.role_permissions@[i].role_id, name, action) == active,
{
    let edge = before.role_permissions@[i];
    let role_id = edge.role_id;
    assert(after.role_permissions@[i] == RolePermission { active, ..edge });
    if active {
        assert(after.edge_links(i, role_id, name, action));
    } else {
        if after.grants(role_id, name, action) {
            let m = choose|m: int|
                0 <= m < after.role_permissions@.len() && #[trigger] after.edge_links(
                    m,
                    role_id,
                    name,
                    action,
                ) && after.role_permissions@[m].active;
            let other = before.role_permissions@[m];
            if other.id == edge.id {
                assert(m == i);
            } else {
                assert(after.role_permissions@[m] == other);
                let j1 = choose|j: int|
                    0 <= j < before.permissions@.len() && #[trigger] before.permissions@[j].id
                        == other.permission_id && before.permissions@[j].action == action
                        && before.object_named(before.permissions@[j].data_object_id, name);
                let j2 = choose|j: int|
                    0 <= j < before.permissions@.len() && #[trigger] before.permissions@[j].id
                        == edge.permission_id && before.permissions@[j].action == action
                        && before.object_named(before.permissions@[j].data_object_id, name);
                let o1 = before.permissions@[j1].data_object_id;
                let o2 = before.permissions@[j2].data_object_id;
                let k1 = choose|k: int|
                    0 <= k < before.data_objects@.len() && #[trigger] before.data_objects@[k].id
                        == o1 && before.data_objects@[k].name@ == name;
                let k2 = choose|k: int|
                    0 <= k < before.data_objects@.len() && #[trigger] before.data_objects@[k].id
                        == o2 && before.data_objects@[k].name@ == name;
                if k1 != k2 {
                    assert(before.data_objects@[k1].name@ != before.data_objects@[k2].name@);
                }
                if j1 != j2 {
                    assert(before.permissions@[j1].data_object_id
                        != before.permissions@[j2].data_object_id
                        || before.permissions@[j1].action != before.permissions@[j2].action);
                }
                assert(m != i);
                assert(before.role_permissions@[m].role_id != before.role_permissions@[i].role_id
                    || before.role_permissions@[m].permission_id
                    != before.role_permissions@[i].permission_id);
            }
        }
    }
}

/// The answer to an authorization query depends on the rows of the store
/// alone: asking again with the same rows gives the same answer.
pub proof fn lemma_grant_answer_stable(
    first: GrantStore,
    second: GrantStore,
    role_id: i32,
    name: Seq<char>,
    action: PermissionActionEnum,
)
    requires
        first.data_objects@ == second.data_objects@,
        first.permissions@ == second.permissions@,
        first.role_permissions@ == second.role_permissions@,
    ensures
        first.grants(role_id, name, action) == second.grants(role_id, name, action),
{
    assert forall|oid: i32| first.object_named(oid, name) == second.object_named(oid, name) by {
        if first.object_named(oid, name) {
            let k = choose|k: int|
                0 <= k < first.data_objects@.len() && #[trigger] first.data_objects@[k].id == oid
                    && first.data_objects@[k].name@ == name;
            assert(second.data_objects@[k] == first.data_objects@[k]);
        }
        if second.object_named(oid, name) {
            let k = choose|k: int|
                0 <= k < second.data_objects@.len() && #[trigger] second.data_objects@[k].id == oid
                    && second.data_objects@[k].name@ == name;
            assert(second.data_objects@[k] == first.data_objects@[k]);
        }
    }
    assert forall|pid: i32|
        first.permission_covers(pid, name, action) == second.permission_covers(pid, name, action) by {
        if first.permission_covers(pid, name, action) {
            let j = choose|j: int|
                0 <= j < first.permissions@.len() && #[trigger] first.permissions@[j].id == pid
                    && first.permissions@[j].action == action && first.object_named(
                    first.permissions@[j].data_object_id,
                    name,
                );
            assert(second.permissions@[j] == first.permissions@[j]);
        }
        if second.permission_covers(pid, name, action) {
            let j = choose|j: int|
                0 <= j < second.permissions@.len() && #[trigger] second.permissions@[j].id == pid
                    && second.permissions@[j].action == action && second.object_named(
                    second.permissions@[j].data_object_id,
                    name,
                );
            assert(second.permissions@[j] == first.permissions@[j]);
        }
    }
    assert forall|i: int| 0 <= i < first.role_permissions@.len() implies first.edge_links(
        i,
        role_id,
        name,
        action,
    ) == #[trigger] second.edge_links(i, role_id, name, action) by {
        assert(first.role_permissions@[i] == second.role_permissions@[i]);
    }
    if first.grants(role_id, name, action) {
        let i = choose|i: int|
            0 <= i < first.role_permissions@.len() && #[trigger] first.edge_links(
                i,
                role_id,
                name,
                action,
            ) && first.role_permissions@[i].active;
        assert(second.edge_links(i, role_id, name, action));
    }
    if second.grants(role_id, name, action) {
        let i = choose|i: int|
            0 <= i < second.role_permissions@.len() && #[trigger] second.edge_links(
                i,
                role_id,
                name,
                action,
            ) && second.role_permissions@[i].active;
        assert(second.edge_links(i, role_id, name, action));
    }
}

/// A menu map built for a role lists each resource name that passes the Read
/// check for the role, and no other.
pub proof fn lemma_menu_map_matches_read_checks(
    store: GrantStore,
    role_id: i32,
    m: MenuActivationMap,
    name: Seq<char>,
)
    requires
        forall|n: Seq<char>|
            #![trigger m.has(n)]
            m.has(n) <==> store.grants(role_id, n, PermissionActionEnum::Read),
    ensures
        m.has(name) ==> store.grants(role_id, name, PermissionActionEnum::Read),
        store.grants(role_id, name, PermissionActionEnum::Read) ==> m.has(name),
{
}

/// A user stored from the fields that a creation request validated to, into a
/// directory that had no user with that email, logs in with the stored email
/// and the request's password once the user's role exists.
pub proof fn lemma_created_user_can_log_in(
    before: UserDirectory,
    after: UserDirectory,
    created: NewUser,
    password: Seq<char>,
    id: i32,
)
    requires
        !before.has_email(created.email@),
        phc_parses(created.password@),
        argon2_accepts(password, created.password@),
        after.users@ == before.users@.push(
            User {
                id,
                name: created.name,
                email: created.email,
                password: created.password,
                role_id: created.role_id,
                active: created.active,
            },
        ),
        exists|k: int| 0 <= k < after.roles@.len() && #[trigger] after.roles@[k].id == created.role_id,
    ensures
        match after.login_outcome(created.email@, password) {
            Ok((i, _)) => i == before.users@.len() && after.users@[i].email@ == created.email@,
            Err(_) => false,
        },
{
    let n = before.users@.len() as int;
    lemma_find_email(after.users@, created.email@, 0);
    let found = find_email(after.users@, created.email@, 0);
    if found is Some {
        let i = found->Some_0;
        if i < n {
            assert(before.users@[i] == after.users@[i]);
        }
    } else {
        assert(after.users@[n].email@ == created.email@);
    }
    lemma_find_role(after.roles@, created.role_id, 0);
}

} // verus!
