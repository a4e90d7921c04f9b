//! The menu activation map: the resource names a role may read, handed to the
//! client at login as a hint for gating its menus.

use vstd::prelude::*;
use crate::grants::GrantStore;
use crate::model::PermissionActionEnum;

verus! {

/// The marker a menu entry carries; it holds no authority.
#[derive(Clone, Copy, Debug, PartialEq, Eq, Structural)]
pub enum MenuState {
    Enabled,
}

/// A set of resource names, each mapped to `MenuState::Enabled`.
#[derive(Clone, Debug)]
pub struct MenuActivationMap {
    pub names: Vec<String>,
}

impl MenuActivationMap {
    /// `name` is a key of the map.
    pub open spec fn has(self, name: Seq<char>) -> bool {
        exists|i: int| 0 <= i < self.names@.len() && #[trigger] self.names@[i]@ == name
    }

    /// No name is listed twice.
    pub open spec fn distinct(self) -> bool {
        forall|a: int, b: int|
            0 <= a < self.names@.len() && 0 <= b < self.names@.len() && a != b
                ==> #[trigger] self.names@[a]@ != #[trigger] self.names@[b]@
    }

    /// The map with no entry.
    pub fn new() -> (m: MenuActivationMap)
        ensures
            m.names@.len() == 0,
            m.distinct(),
    {
        MenuActivationMap { names: Vec::new() }
    }

    fn has_name(&self, name: &String) -> (r: bool)
        ensures
            r == self.has(name@),
    {
        let mut i: usize = 0;
        while i < self.names.len()
            invariant
                i <= self.names@.len(),
                forall|m: int| 0 <= m < i ==> #[trigger] self.names@[m]@ != name@,
            decreases self.names@.len() - i,
        {
            if self.names[i] == *name {
                return true;
            }
            i += 1;
        }
        false
    }

    /// Whether `name` is a key of the map.
    pub fn contains(&self, name: &str) -> (r: bool)
        ensures
            r == self.has(name@),
    {
        let owned = name.to_owned();
        self.has_name(&owned)
    }

    /// The marker stored under `name`, if any.
    pub fn get(&self, name: &str) -> (r: Option<MenuState>)
        ensures
            r == if self.has(name@) {
                Some(MenuState::Enabled)
            } else {
                None
            },
    {
        if self.contains(name) {
            Some(MenuState::Enabled)
        } else {
            None
        }
    }

    /// The number of keys.
    pub fn len(&self) -> (r: usize)
        ensures
            r == self.names@.len(),
    {
        self.names.len()
    }
}

/// The names of the data objects on which `role_id` holds an active Read grant,
/// each once.
pub fn build_menu_activation_map(store: &GrantStore, role_id: i32) -> (m: MenuActivationMap)
    ensures
        m.distinct(),
        forall|name: Seq<char>|
            #![trigger m.has(name)]
            m.has(name) <==> store.grants(role_id, name, PermissionActionEnum::Read),
{
    let mut m = MenuActivationMap::new();
    let mut k: usize = 0;
    while k < store.data_objects.len()
        invariant
            k <= store.data_objects@.len(),
            m.distinct(),
            forall|name: Seq<char>|
                #![trigger m.has(name)]
                m.has(name) <==> (store.grants(role_id, name, PermissionActionEnum::Read) && exists|
                    x: int,
                |
                    0 <= x < k && #[trigger] store.data_objects@[x].name@ == name),
        decreases store.data_objects@.len() - k,
    {
        let name = &store.data_objects[k].name;
        if store.authorize(role_id, name.as_str(), PermissionActionEnum::Read) && !m.has_name(name) {
            let ghost before = m;
            m.names.push(name.clone());
            assert(m.names@[m.names@.len() - 1]@ == name@);
            assert forall|n: Seq<char>| #[trigger] m.has(n) <==> (before.has(n) || n == name@) by {
                if m.has(n) {
                    let i = choose|i: int| 0 <= i < m.names@.len() && #[trigger] m.names@[i]@ == n;
                    if i < before.names@.len() {
                        assert(before.names@[i] == m.names@[i]);
                    }
                }
                if before.has(n) {
                    let i = choose|i: int|
                        0 <= i < before.names@.len() && #[trigger] before.names@[i]@ == n;
                    assert(m.names@[i] == before.names@[i]);
                }
            }
        }
        proof {
            assert forall|name2: Seq<char>|
                store.grants(role_id, name2, PermissionActionEnum::Read) && exists|x: int|
                    0 <= x < k + 1 && #[trigger] store.data_objects@[x].name@ == name2 implies m.has(
                name2,
            ) by {
                let x = choose|x: int| 0 <= x < k + 1 && #[trigger] store.data_objects@[x].name@ == name2;
                if x < k {
                } else {
                    assert(store.data_objects@[k as int].name@ == name2);
                }
            }
        }
        k += 1;
    }
    proof {
        assert forall|name: Seq<char>|
            store.grants(role_id, name, PermissionActionEnum::Read) implies exists|x: int|
                0 <= x < store.data_objects@.len() && #[trigger] store.data_objects@[x].name@
                    == name by {
            let i = choose|i: int|
                0 <= i < store.role_permissions@.len() && #[trigger] store.edge_links(
                    i,
                    role_id,
                    name,
                    PermissionActionEnum::Read,
                ) && store.role_permissions@[i].active;
            let pid = store.role_permissions@[i].permission_id;
            let j = choose|j: int|
                0 <= j < store.permissions@.len() && #[trigger] store.permissions@[j].id == pid
                    && store.permissions@[j].action == PermissionActionEnum::Read
                    && store.object_named(store.permissions@[j].data_object_id, name);
            let oid = store.permissions@[j].data_object_id;
            let x = choose|x: int|
                0 <= x < store.data_objects@.len() && #[trigger] store.data_objects@[x].id == oid
                    && store.data_objects@[x].name@ == name;
            assert(store.data_objects@[x].name@ == name);
        }
    }
    m
}

} // verus!
