use argon2::{Algorithm, Argon2, Params, Version};
use dnc_backend::admin::CreateUserRequest;
use dnc_backend::grants::{role_has_permission_by_data_object_name, GrantStore};
use dnc_backend::login::{authenticate, authenticate_at, AuthError, LoginResponse, UserDirectory};
use dnc_backend::menu::{build_menu_activation_map, MenuState};
use dnc_backend::model::{DataObject, Permission, PermissionActionEnum, Role, RolePermission, User};
use dnc_backend::password::{check_password, hash_password, hash_password_with_salt, HashError, PasswordCheck};
use dnc_backend::session::{
    admit_token, check_permission, issue_claims, token_state, whoami, AuthUser, Claims,
    DecodeFailure, RequestError, TokenState, SESSION_LIFETIME_SECS,
};
use password_hash::{PasswordHasher, SaltString};

const ACTIONS: [PermissionActionEnum; 4] = [
    PermissionActionEnum::Create,
    PermissionActionEnum::Read,
    PermissionActionEnum::Update,
    PermissionActionEnum::Delete,
];

const NOW: usize = 1_767_225_600;

fn phc(password: &str) -> String {
    let params = Params::new(8, 1, 1, None).unwrap();
    let hasher = Argon2::new(Algorithm::Argon2id, Version::V0x13, params);
    let salt = SaltString::from_b64("c2FsdHNhbHRzYWx0").unwrap();
    hasher.hash_password(password.as_bytes(), &salt).unwrap().to_string()
}

fn grants() -> GrantStore {
    let names = ["user", "role", "dental_clinic"];
    let data_objects: Vec<DataObject> = names
        .iter()
        .enumerate()
        .map(|(i, n)| DataObject { id: i as i32 + 1, name: n.to_string(), active: true })
        .collect();
    let mut permissions = Vec::new();
    for o in &data_objects {
        for (k, a) in ACTIONS.iter().enumerate() {
            permissions.push(Permission {
                id: (o.id - 1) * 4 + k as i32 + 1,
                data_object_id: o.id,
                action: *a,
            });
        }
    }
    let role_permissions = permissions
        .iter()
        .map(|p| RolePermission { id: 100 + p.id, role_id: 1, permission_id: p.id, active: true })
        .collect();
    GrantStore { data_objects, permissions, role_permissions }
}

fn directory() -> UserDirectory {
    UserDirectory {
        users: vec![
            User {
                id: 1,
                name: "Admin".to_string(),
                email: "admin@dnc.com.ph".to_string(),
                password: phc("password"),
                role_id: 1,
                active: true,
            },
            User {
                id: 2,
                name: "No Perms".to_string(),
                email: "noperms@dnc.com.ph".to_string(),
                password: phc("noperms"),
                role_id: 2,
                active: true,
            },
            User {
                id: 3,
                name: "Orphan".to_string(),
                email: "orphan@dnc.com.ph".to_string(),
                password: phc("orphan"),
                role_id: 9,
                active: true,
            },
            User {
                id: 4,
                name: "Broken".to_string(),
                email: "broken@dnc.com.ph".to_string(),
                password: "not a phc string".to_string(),
                role_id: 1,
                active: true,
            },
        ],
        roles: vec![
            Role { id: 1, name: "administrator".to_string(), description: "all".to_string(), active: true },
            Role { id: 2, name: "noperms".to_string(), description: "none".to_string(), active: true },
        ],
    }
}

#[test]
fn valid_login_carries_user_identity() {
    let s = authenticate(&directory(), &grants(), "admin@dnc.com.ph", "password", NOW).unwrap();
    assert_eq!(s.user_id, 1);
    assert_eq!(s.role_id, 1);
    assert_eq!(s.role_name, "administrator");
    assert_eq!(s.claims.sub, 1);
    assert_eq!(s.claims.role_id, 1);
    assert_eq!(s.claims.email, "admin@dnc.com.ph");
    assert_eq!(s.claims.exp, NOW + 86400);
}

#[test]
fn wrong_passwords_are_invalid_credentials() {
    let d = directory();
    let g = grants();
    for pw in ["", "passwrod", "Password", "password ", "noperms"] {
        let r = authenticate(&d, &g, "admin@dnc.com.ph", pw, NOW);
        assert_eq!(r.err(), Some(AuthError::InvalidCredentials));
    }
    let unknown = authenticate(&d, &g, "nobody@dnc.com.ph", "password", NOW);
    assert_eq!(unknown.err(), Some(AuthError::InvalidCredentials));
    assert_eq!(AuthError::InvalidCredentials.status(), 401);
}

#[test]
fn dangling_role_and_bad_hash_are_server_faults() {
    let d = directory();
    let g = grants();
    let r = authenticate(&d, &g, "orphan@dnc.com.ph", "orphan", NOW);
    assert_eq!(r.err(), Some(AuthError::RoleNotFound));
    let wrong = authenticate(&d, &g, "orphan@dnc.com.ph", "nope", NOW);
    assert_eq!(wrong.err(), Some(AuthError::InvalidCredentials));
    let b = authenticate(&d, &g, "broken@dnc.com.ph", "password", NOW);
    assert_eq!(b.err(), Some(AuthError::InvalidStoredHash));
    assert_eq!(AuthError::RoleNotFound.status(), 500);
    assert_eq!(AuthError::InvalidStoredHash.status(), 500);
    assert_eq!(AuthError::ClockOutOfRange.status(), 500);
}

#[test]
fn administrator_may_create_users() {
    let g = grants();
    assert!(g.authorize(1, "user", PermissionActionEnum::Create));
    assert!(role_has_permission_by_data_object_name(&g, 1, "user", PermissionActionEnum::Create));
    for a in ACTIONS {
        assert!(g.authorize(1, "dental_clinic", a));
    }
    assert!(!g.authorize(1, "hmo", PermissionActionEnum::Read));
}

#[test]
fn no_permission_role_logs_in_but_is_forbidden_everywhere() {
    let d = directory();
    let g = grants();
    let s = authenticate(&d, &g, "noperms@dnc.com.ph", "noperms", NOW).unwrap();
    assert_eq!(s.claims.role_id, 2);
    assert_eq!(s.menu_activation_map.len(), 0);
    let user = admit_token(Ok(s.claims.clone()), NOW + 10).unwrap();
    for name in ["user", "role", "dental_clinic", "hmo"] {
        for a in ACTIONS {
            assert!(!g.authorize(2, name, a));
            let r = check_permission(&g, &user, name, a);
            assert_eq!(r, Err(RequestError::Forbidden));
            assert_eq!(r.unwrap_err().status(), 403);
        }
    }
}

#[test]
fn expired_token_is_rejected() {
    let claims = Claims { sub: 1, email: "admin@dnc.com.ph".to_string(), role_id: 1, exp: NOW - 1 };
    assert_eq!(token_state(&Ok(claims.clone()), NOW), TokenState::Expired);
    let at_expiry = Claims { exp: NOW, ..claims.clone() };
    assert_eq!(token_state(&Ok(at_expiry), NOW), TokenState::Expired);
    let r = admit_token(Ok(claims), NOW);
    assert_eq!(r.err(), Some(RequestError::Unauthorized));
    assert_eq!(RequestError::Unauthorized.status(), 401);
    let forged: Result<Claims, DecodeFailure> = Err(DecodeFailure::InvalidSignature);
    assert_eq!(token_state(&forged, NOW), TokenState::InvalidSignature);
    assert_eq!(admit_token(forged, NOW).err(), Some(RequestError::Unauthorized));
    let garbled: Result<Claims, DecodeFailure> = Err(DecodeFailure::InvalidClaims);
    assert_eq!(token_state(&garbled, NOW), TokenState::InvalidClaims);
    assert_eq!(admit_token(garbled, NOW).err(), Some(RequestError::Unauthorized));
}

#[test]
fn fresh_token_is_valid_until_expiry() {
    let d = directory();
    let claims = issue_claims(&d.users[0], NOW);
    assert_eq!(claims.exp, NOW + SESSION_LIFETIME_SECS);
    assert_eq!(token_state(&Ok(claims.clone()), NOW), TokenState::Valid);
    assert_eq!(token_state(&Ok(claims.clone()), NOW + 86399), TokenState::Valid);
    assert_eq!(token_state(&Ok(claims.clone()), NOW + 86400), TokenState::Expired);
    let user = admit_token(Ok(claims), NOW + 5).unwrap();
    let me = whoami(user);
    assert_eq!(me.email, "admin@dnc.com.ph");
    assert_eq!(me.role_id, 1);
}

#[test]
fn revocation_applies_to_the_next_check_only() {
    let d = directory();
    let mut g = grants();
    let s = authenticate(&d, &g, "admin@dnc.com.ph", "password", NOW).unwrap();
    let user_read_edge = g
        .role_permissions
        .iter()
        .find(|e| {
            let p = g.permissions.iter().find(|p| p.id == e.permission_id).unwrap();
            p.data_object_id == 1 && p.action == PermissionActionEnum::Read
        })
        .unwrap()
        .id;
    assert!(g.set_grant_active(user_read_edge, false));
    let user: AuthUser = admit_token(Ok(s.claims.clone()), NOW + 60).unwrap();
    assert_eq!(user.claims.role_id, 1);
    assert_eq!(check_permission(&g, &user, "user", PermissionActionEnum::Read), Err(RequestError::Forbidden));
    assert_eq!(check_permission(&g, &user, "user", PermissionActionEnum::Update), Ok(()));
    assert!(!g.set_grant_active(9999, false));
}

#[test]
fn toggling_an_edge_flips_the_answer() {
    let mut g = grants();
    assert!(g.authorize(1, "role", PermissionActionEnum::Delete));
    let edge = g.role_permissions[7].id;
    let p = g.permissions[7];
    assert_eq!((p.data_object_id, p.action), (2, PermissionActionEnum::Delete));
    g.set_grant_active(edge, false);
    assert!(!g.authorize(1, "role", PermissionActionEnum::Delete));
    assert!(g.authorize(1, "role", PermissionActionEnum::Update));
    g.set_grant_active(edge, true);
    assert!(g.authorize(1, "role", PermissionActionEnum::Delete));
}

#[test]
fn authorize_twice_gives_the_same_answer() {
    let g = grants();
    for name in ["user", "hmo"] {
        for a in ACTIONS {
            assert_eq!(g.authorize(1, name, a), g.authorize(1, name, a));
            assert_eq!(g.authorize(2, name, a), g.authorize(2, name, a));
        }
    }
}

#[test]
fn menu_map_is_the_read_grant_set() {
    let mut g = grants();
    let m = build_menu_activation_map(&g, 1);
    assert_eq!(m.len(), 3);
    for name in ["user", "role", "dental_clinic", "hmo"] {
        assert_eq!(m.contains(name), g.authorize(1, name, PermissionActionEnum::Read));
    }
    assert_eq!(m.get("role"), Some(MenuState::Enabled));
    assert_eq!(m.get("hmo"), None);
    // An inactive Read edge drops the name; other grants on it do not add it back.
    let read_role_edge = g.role_permissions[5].id;
    assert_eq!(g.permissions[5].action, PermissionActionEnum::Read);
    g.set_grant_active(read_role_edge, false);
    let m2 = build_menu_activation_map(&g, 1);
    assert_eq!(m2.len(), 2);
    assert!(!m2.contains("role"));
    assert!(m2.contains("user"));
}

#[test]
fn menu_map_lists_each_name_once() {
    let mut g = grants();
    g.data_objects.push(DataObject { id: 4, name: "user".to_string(), active: true });
    g.permissions.push(Permission { id: 50, data_object_id: 4, action: PermissionActionEnum::Read });
    g.role_permissions.push(RolePermission { id: 500, role_id: 1, permission_id: 50, active: true });
    let m = build_menu_activation_map(&g, 1);
    assert_eq!(m.len(), 3);
}

#[test]
fn login_response_copies_the_session() {
    let s = authenticate(&directory(), &grants(), "admin@dnc.com.ph", "password", NOW).unwrap();
    let r = LoginResponse::new(s, "signed".to_string());
    assert_eq!(r.user_id, 1);
    assert_eq!(r.email, "admin@dnc.com.ph");
    assert_eq!(r.role_name, "administrator");
    assert_eq!(r.token, "signed");
    assert!(r.menu_activation_map.contains("dental_clinic"));
}

#[test]
fn password_check_outcomes() {
    let h = phc("secret");
    assert_eq!(check_password("secret", &h), PasswordCheck::Match);
    assert_eq!(check_password("Secret", &h), PasswordCheck::Mismatch);
    assert_eq!(check_password("secret", ""), PasswordCheck::MalformedHash);
    assert_eq!(check_password("secret", "secret"), PasswordCheck::MalformedHash);
}

#[test]
fn fresh_hash_verifies_its_password() {
    let h = hash_password("s3cret").unwrap();
    assert!(h.starts_with("$argon2id$"));
    assert_ne!(h, "s3cret");
    assert_eq!(check_password("s3cret", &h), PasswordCheck::Match);
}

#[test]
fn created_user_logs_in_with_its_password() {
    let mut d = directory();
    let g = grants();
    let request = CreateUserRequest {
        name: "Clerk".to_string(),
        email: " clerk@dnc.com.ph ".to_string(),
        password: "opensesame".to_string(),
        role_id: 2,
        active: true,
    };
    let created = request.validate(&d).unwrap();
    d.users.push(User {
        id: 10,
        name: created.name,
        email: created.email,
        password: created.password,
        role_id: created.role_id,
        active: created.active,
    });
    let s = authenticate(&d, &g, "clerk@dnc.com.ph", "opensesame", NOW).unwrap();
    assert_eq!((s.user_id, s.claims.sub, s.claims.role_id), (10, 10, 2));
    assert_eq!(s.claims.email, "clerk@dnc.com.ph");
    assert_eq!(s.role_name, "noperms");
}

#[test]
fn hashing_under_a_given_salt() {
    let salt = [7u8; 16];
    let h = hash_password_with_salt("s3cret", &salt).unwrap();
    assert!(h.starts_with("$argon2id$"));
    assert_eq!(check_password("s3cret", &h), PasswordCheck::Match);
    assert_eq!(check_password("s3cret!", &h), PasswordCheck::Mismatch);
    assert_eq!(hash_password_with_salt("s3cret", &[1u8; 7]), Err(HashError::BadSalt));
    assert_eq!(hash_password_with_salt("s3cret", &[1u8; 49]), Err(HashError::BadSalt));
    assert_eq!(hash_password_with_salt("s3cret", &[]), Err(HashError::BadSalt));
}

#[test]
fn login_at_a_clock_reading() {
    let d = directory();
    let g = grants();
    let t = NOW as u64;
    let s = authenticate_at(&d, &g, "admin@dnc.com.ph", "password", t).unwrap();
    assert_eq!(s.claims.exp, NOW + 86400);
    let late = (usize::MAX - SESSION_LIFETIME_SECS) as u64 + 1;
    if late > 0 {
        let r = authenticate_at(&d, &g, "admin@dnc.com.ph", "password", late);
        assert_eq!(r.err(), Some(AuthError::ClockOutOfRange));
    }
    let wrong = authenticate_at(&d, &g, "admin@dnc.com.ph", "nope", t);
    assert_eq!(wrong.err(), Some(AuthError::InvalidCredentials));
}
