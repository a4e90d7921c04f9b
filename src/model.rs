//! Rows of the access-control schema, as plain values.

use vstd::prelude::*;

verus! {

/// The closed set of verbs a permission can grant.
#[derive(Clone, Copy, Debug, PartialEq, Eq, Structural)]
pub enum PermissionActionEnum {
    Create,
    Read,
    Update,
    Delete,
}

/// A protected resource kind; `name` is its stable external key.
#[derive(Clone, Debug)]
pub struct DataObject {
    pub id: i32,
    pub name: String,
    pub active: bool,
}

/// One (resource, action) capability of the catalog.
#[derive(Clone, Copy, Debug)]
pub struct Permission {
    pub id: i32,
    pub data_object_id: i32,
    pub action: PermissionActionEnum,
}

/// A named collection of grants.
#[derive(Clone, Debug)]
pub struct Role {
    pub id: i32,
    pub name: String,
    pub description: String,
    pub active: bool,
}

/// A grant edge between a role and a permission; only active edges grant.
#[derive(Clone, Copy, Debug)]
pub struct RolePermission {
    pub id: i32,
    pub role_id: i32,
    pub permission_id: i32,
    pub active: bool,
}

/// An account; `password` holds the stored PHC hash string.
#[derive(Clone, Debug)]
pub struct User {
    pub id: i32,
    pub name: String,
    pub email: String,
    pub password: String,
    pub role_id: i32,
    pub active: bool,
}

} // verus!
