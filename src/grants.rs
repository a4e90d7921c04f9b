//! The permission catalog and the role grant edges, and the authorization check
//! over them.

use vstd::prelude::*;
use crate::model::{DataObject, Permission, PermissionActionEnum, RolePermission};

verus! {

/// A snapshot of the catalog (data objects and permissions) and of the grant
/// edges between roles and permissions.
#[derive(Clone, Debug)]
pub struct GrantStore {
    pub data_objects: Vec<DataObject>,
    pub permissions: Vec<Permission>,
    pub role_permissions: Vec<RolePermission>,
}

impl GrantStore {
    /// Some data object has id `data_object_id` and name `name`.
    pub open spec fn object_named(self, data_object_id: i32, name: Seq<char>) -> bool {
        exists|k: int|
            0 <= k < self.data_objects@.len() && #[trigger] self.data_objects@[k].id == data_object_id
                && self.data_objects@[k].name@ == name
    }

    /// Some permission has id `permission_id` and grants `action` on the data
    /// object called `name`.
    pub open spec fn permission_covers(
        self,
        permission_id: i32,
        name: Seq<char>,
        action: PermissionActionEnum,
    ) -> bool {
        exists|j: int|
            0 <= j < self.permissions@.len() && #[trigger] self.permissions@[j].id == permission_id
                && self.permissions@[j].action == action && self.object_named(
                self.permissions@[j].data_object_id,
                name,
            )
    }

    /// Edge `i` links `role_id` to a permission for (`name`, `action`),
    /// whether or not it is active.
    pub open spec fn edge_links(
        self,
        i: int,
        role_id: i32,
        name: Seq<char>,
        action: PermissionActionEnum,
    ) -> bool {
        &&& self.role_permissions@[i].role_id == role_id
        &&& self.permission_covers(self.role_permissions@[i].permission_id, name, action)
    }

    /// The role holds `action` on the resource called `name`: an active edge
    /// joins it to a permission for that pair. Only the edge's `active` flag
    /// is consulted; the data object's own flag does not withdraw a grant.
    pub open spec fn grants(self, role_id: i32, name: Seq<char>, action: PermissionActionEnum) -> bool {
        exists|i: int|
            0 <= i < self.role_permissions@.len() && #[trigger] self.edge_links(i, role_id, name, action)
                && self.role_permissions@[i].active
    }

    /// Ids are keys, names are unique, the catalog holds at most one permission
    /// per (data object, action), and at most one edge joins a role and a
    /// permission.
    pub open spec fn wf(self) -> bool {
        &&& forall|a: int, b: int|
            0 <= a < self.data_objects@.len() && 0 <= b < self.data_objects@.len() && a != b
                ==> #[trigger] self.data_objects@[a].id != #[trigger] self.data_objects@[b].id
                && self.data_objects@[a].name@ != self.data_objects@[b].name@
        &&& forall|a: int, b: int|
            0 <= a < self.permissions@.len() && 0 <= b < self.permissions@.len() && a != b
                ==> #[trigger] self.permissions@[a].id != #[trigger] self.permissions@[b].id
                && (self.permissions@[a].data_object_id != self.permissions@[b].data_object_id
                || self.permissions@[a].action != self.permissions@[b].action)
        &&& forall|a: int, b: int|
            0 <= a < self.role_permissions@.len() && 0 <= b < self.role_permissions@.len() && a
                != b ==> #[trigger] self.role_permissions@[a].id
                != #[trigger] self.role_permissions@[b].id && (self.role_permissions@[a].role_id
                != self.role_permissions@[b].role_id || self.role_permissions@[a].permission_id
                != self.role_permissions@[b].permission_id)
    }

    /// `self` is `before` with every edge whose id is `id` set to `active`.
    pub open spec fn toggled_from(self, before: GrantStore, id: i32, active: bool) -> bool {
        &&& self.data_objects@ == before.data_objects@
        &&& self.permissions@ == before.permissions@
        &&& self.role_permissions@.len() == before.role_permissions@.len()
        &&& forall|i: int|
            0 <= i < self.role_permissions@.len() ==> #[trigger] self.role_permissions@[i] == (
            if before.role_permissions@[i].id == id {
                RolePermission { active, ..before.role_permissions@[i] }
            } else {
                before.role_permissions@[i]
            })
    }

    fn has_object_named(&self, data_object_id: i32, name: &String) -> (r: bool)
        ensures
            r == self.object_named(data_object_id, name@),
    {
        let mut k: usize = 0;
        while k < self.data_objects.len()
            invariant
                k <= self.data_objects@.len(),
                forall|m: int|
                    0 <= m < k ==> !(#[trigger] self.data_objects@[m].id == data_object_id
                        && self.data_objects@[m].name@ == name@),
            decreases self.data_objects@.len() - k,
        {
            let object = &self.data_objects[k];
            if object.id == data_object_id && object.name == *name {
                return true;
            }
            k += 1;
        }
        false
    }

    fn has_permission_for(&self, permission_id: i32, name: &String, action: PermissionActionEnum) -> (r:
        bool)
        ensures
            r == self.permission_covers(permission_id, name@, action),
    {
        let mut j: usize = 0;
        while j < self.permissions.len()
            invariant
                j <= self.permissions@.len(),
                forall|m: int|
                    0 <= m < j ==> !(#[trigger] self.permissions@[m].id == permission_id
                        && self.permissions@[m].action == action && self.object_named(
                        self.permissions@[m].data_object_id,
                        name@,
                    )),
            decreases self.permissions@.len() - j,
        {
            let permission = self.permissions[j];
            if permission.id == permission_id && permission.action == action
                && self.has_object_named(permission.data_object_id, name) {
                return true;
            }
            j += 1;
        }
        false
    }

    /// Whether `role_id` holds `action` on the resource called `name`.
    pub fn authorize(&self, role_id: i32, name: &str, action: PermissionActionEnum) -> (r: bool)
        ensures
            r == self.grants(role_id, name@, action),
    {
        let wanted = name.to_owned();
        let mut i: usize = 0;
        while i < self.role_permissions.len()
            invariant
                i <= self.role_permissions@.len(),
                wanted@ == name@,
                forall|m: int|
                    0 <= m < i ==> !(#[trigger] self.edge_links(m, role_id, name@, action)
                        && self.role_permissions@[m].active),
            decreases self.role_permissions@.len() - i,
        {
            let edge = self.role_permissions[i];
            if edge.role_id == role_id && edge.active && self.has_permission_for(
                edge.permission_id,
                &wanted,
                action,
            ) {
                assert(self.edge_links(i as int, role_id, name@, action));
                return true;
            }
            i += 1;
        }
        false
    }

    /// Sets the `active` flag of the grant edge with id `id`; returns whether
    /// such an edge exists.
    pub fn set_grant_active(&mut self, id: i32, active: bool) -> (found: bool)
        ensures
            final(self).toggled_from(*old(self), id, active),
            found == exists|i: int|
                0 <= i < old(self).role_permissions@.len() && #[trigger] old(
                    self,
                ).role_permissions@[i].id == id,
    {
        let mut found = false;
        let mut i: usize = 0;
        while i < self.role_permissions.len()
            invariant
                i <= self.role_permissions@.len(),
                self.data_objects@ == old(self).data_objects@,
                self.permissions@ == old(self).permissions@,
                self.role_permissions@.len() == old(self).role_permissions@.len(),
                forall|m: int|
                    0 <= m < self.role_permissions@.len() ==> #[trigger] self.role_permissions@[m]
                        == if m < i && old(self).role_permissions@[m].id == id {
                        RolePermission { active, ..old(self).role_permissions@[m] }
                    } else {
                        old(self).role_permissions@[m]
                    },
                found == exists|m: int| 0 <= m < i && #[trigger] old(self).role_permissions@[m].id == id,
            decreases self.role_permissions@.len() - i,
        {
            if self.role_permissions[i].id == id {
                let mut edge = self.role_permissions[i];
                edge.active = active;
                self.role_permissions.set(i, edge);
                found = true;
            }
            i += 1;
        }
        found
    }
}

/// Whether `role_id` holds `action` on the data object called
/// `data_object_name`; every protected handler asks this before it acts.
pub fn role_has_permission_by_data_object_name(
    store: &GrantStore,
    role_id: i32,
    data_object_name: &str,
    action: PermissionActionEnum,
) -> (r: bool)
    ensures
        r == store.grants(role_id, data_object_name@, action),
{
    store.authorize(role_id, data_object_name, action)
}

} // verus!
