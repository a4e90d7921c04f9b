//! Role-based access control for the clinic backend: the permission catalog,
//! role grants, credential checks, session claims and the login-time menu map.

pub mod model;
pub mod grants;
pub mod text;
pub mod menu;
pub mod paging;
pub mod password;
pub mod session;
pub mod login;
pub mod admin;
pub mod clinic;
pub mod geo;
pub mod greeting;
pub mod laws;
