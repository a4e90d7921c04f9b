use dnc_backend::admin::{
    default_active_true, CreateRoleRequest, CreateUserRequest, DataObjectRow, PatchRoleRequest,
    PatchUserRequest,
};
use dnc_backend::clinic::{
    check_row_id, to_row, ClinicCapabilitiesList, ClinicCapability, CreateClinicCapabilityPayload,
    PatchClinicCapabilityPayload, SetClinicCapabilitiesBody,
};
use dnc_backend::geo::{check_parent, CityRow, PatchCityRequest, PatchRegionRequest, PatchStateRequest, RegionRow, StateRow};
use dnc_backend::greeting::{test_posting_json, TestJsonRequest};
use dnc_backend::login::UserDirectory;
use dnc_backend::model::{DataObject, Role, User};
use dnc_backend::paging::{ListQuery, PageResponse, SortOrder};
use dnc_backend::password::{check_password, PasswordCheck};
use dnc_backend::session::{bearer_token, RequestError};
use dnc_backend::text::normalize_name;

fn query() -> ListQuery {
    ListQuery { q: None, active: None, sort: None, order: None, page: None, page_size: None }
}

#[test]
fn bearer_prefix_is_stripped() {
    assert_eq!(bearer_token("Bearer abc.def.ghi"), Some("abc.def.ghi"));
    assert_eq!(bearer_token("Bearer "), Some(""));
    assert_eq!(bearer_token("bearer abc"), None);
    assert_eq!(bearer_token("Basic abc"), None);
    assert_eq!(bearer_token("Bearer"), None);
}

#[test]
fn names_are_trimmed() {
    assert_eq!(normalize_name("  Braces  "), Some("Braces".to_string()));
    assert_eq!(normalize_name("\u{3000}Root canal\t\n"), Some("Root canal".to_string()));
    assert_eq!(normalize_name(" a b "), Some("a b".to_string()));
    assert_eq!(normalize_name("   "), None);
    assert_eq!(normalize_name(""), None);
}

#[test]
fn page_defaults_and_bounds() {
    let w = query().page_window();
    assert_eq!((w.page, w.page_size, w.page0), (1, 25, 0));
    let q = ListQuery { page: Some(0), page_size: Some(1000), ..query() };
    let w = q.page_window();
    assert_eq!((w.page, w.page_size, w.page0), (1, 200, 0));
    let q = ListQuery { page: Some(4), page_size: Some(0), ..query() };
    let w = q.page_window();
    assert_eq!((w.page, w.page_size, w.page0), (4, 1, 3));
    let q = ListQuery { page: Some(u64::MAX), page_size: Some(200), ..query() };
    assert_eq!(q.page_window().page0, u64::MAX - 1);
    let page = PageResponse::new(vec![1, 2], w, 10, 10);
    assert_eq!((page.items.len(), page.page, page.page_size, page.total_items, page.total_pages), (2, 4, 1, 10, 10));
}

#[test]
fn active_filter_defaults_to_true() {
    assert!(query().active_filter());
    assert!(!ListQuery { active: Some(false), ..query() }.active_filter());
}

#[test]
fn sort_order_and_column() {
    assert_eq!(query().sort_order(), Ok(SortOrder::Asc));
    assert_eq!(ListQuery { order: Some("desc".to_string()), ..query() }.sort_order(), Ok(SortOrder::Desc));
    assert_eq!(ListQuery { order: Some("DESC".to_string()), ..query() }.sort_order(), Err(RequestError::BadRequest));
    let columns = ["id", "name", "lastModifiedOn", "last_modified_on"];
    assert_eq!(query().sort_column("name", &columns), Ok(1));
    let q = ListQuery { sort: Some("last_modified_on".to_string()), ..query() };
    assert_eq!(q.sort_column("name", &columns), Ok(3));
    let q = ListQuery { sort: Some("password".to_string()), ..query() };
    assert_eq!(q.sort_column("name", &columns), Err(RequestError::BadRequest));
    assert_eq!(RequestError::BadRequest.status(), 400);
}

#[test]
fn search_term_is_trimmed_or_absent() {
    assert_eq!(query().search_term(), None);
    assert_eq!(ListQuery { q: Some("  ".to_string()), ..query() }.search_term(), None);
    assert_eq!(ListQuery { q: Some(" mola ".to_string()), ..query() }.search_term(), Some("mola".to_string()));
}

#[test]
fn role_creation_rules() {
    let ok = CreateRoleRequest { name: " clerk ".to_string(), description: " front desk".to_string(), active: None };
    let f = ok.validate().unwrap();
    assert_eq!((f.name.as_str(), f.description.as_str(), f.active), ("clerk", "front desk", true));
    let inactive = CreateRoleRequest { active: Some(false), ..ok.clone() };
    assert!(!inactive.validate().unwrap().active);
    let blank = CreateRoleRequest { description: "  ".to_string(), ..ok };
    assert_eq!(blank.validate().err(), Some(RequestError::BadRequest));
}

#[test]
fn role_patch_rules() {
    let role = Role { id: 7, name: "clerk".to_string(), description: "desk".to_string(), active: true };
    let p = PatchRoleRequest { name: Some(" cashier ".to_string()), description: None, active: Some(false) };
    let r = p.apply(&role).unwrap();
    assert_eq!((r.id, r.name.as_str(), r.description.as_str(), r.active), (7, "cashier", "desk", false));
    let blank = PatchRoleRequest { name: None, description: Some(" ".to_string()), active: None };
    assert_eq!(blank.apply(&role).err(), Some(RequestError::BadRequest));
}

fn users() -> UserDirectory {
    UserDirectory {
        users: vec![User {
            id: 1,
            name: "Admin".to_string(),
            email: "admin@dnc.com.ph".to_string(),
            password: "$argon2id$v=19$m=8,t=1,p=1$c2FsdHNhbHRzYWx0$AAAA".to_string(),
            role_id: 1,
            active: true,
        }],
        roles: vec![],
    }
}

#[test]
fn user_creation_rules() {
    let d = users();
    assert!(default_active_true());
    let req = CreateUserRequest {
        name: " Ana ".to_string(),
        email: " ana@dnc.com.ph ".to_string(),
        password: "pw".to_string(),
        role_id: 2,
        active: default_active_true(),
    };
    let taken = CreateUserRequest { email: "admin@dnc.com.ph ".to_string(), ..req.clone() };
    assert_eq!(taken.validate(&d).err(), Some(RequestError::Conflict));
    assert_eq!(RequestError::Conflict.status(), 409);
    let no_pw = CreateUserRequest { password: String::new(), ..req.clone() };
    assert_eq!(no_pw.validate(&d).err(), Some(RequestError::BadRequest));
    let no_name = CreateUserRequest { name: " ".to_string(), ..req.clone() };
    assert_eq!(no_name.validate(&d).err(), Some(RequestError::BadRequest));
    let u = req.validate(&d).unwrap();
    assert_eq!((u.name.as_str(), u.email.as_str(), u.role_id, u.active), ("Ana", "ana@dnc.com.ph", 2, true));
    assert_eq!(check_password("pw", &u.password), PasswordCheck::Match);
}

#[test]
fn user_patch_rules() {
    let d = users();
    let mut other = d.users[0].clone();
    other.id = 2;
    other.email = "bo@dnc.com.ph".to_string();
    let keep = PatchUserRequest { name: Some("  ".to_string()), email: None, password: None, role_id: Some(3), active: None };
    let u = keep.apply(&d, &other).unwrap();
    assert_eq!((u.id, u.name.as_str(), u.email.as_str(), u.role_id, u.active), (2, "Admin", "bo@dnc.com.ph", 3, true));
    assert_eq!(u.password, other.password);
    let clash = PatchUserRequest { email: Some("admin@dnc.com.ph".to_string()), ..keep.clone() };
    assert_eq!(clash.apply(&d, &other).err(), Some(RequestError::Conflict));
    let same = PatchUserRequest { email: Some(" admin@dnc.com.ph".to_string()), ..keep };
    let own = same.apply(&d, &d.users[0]).unwrap();
    assert_eq!(own.email, "admin@dnc.com.ph");
}

#[test]
fn data_object_row_copies_fields() {
    let o = DataObject { id: 3, name: "hmo".to_string(), active: false };
    let r = DataObjectRow::from_data_object(&o);
    assert_eq!((r.id, r.name.as_str()), (3, "hmo"));
}

#[test]
fn clinic_capability_rules() {
    let c = CreateClinicCapabilityPayload { name: " X-ray ".to_string(), active: None }.validate().unwrap();
    assert_eq!((c.name.as_str(), c.active), ("X-ray", true));
    let blank = CreateClinicCapabilityPayload { name: "\t".to_string(), active: Some(true) };
    assert_eq!(blank.validate().err(), Some(RequestError::BadRequest));
    assert_eq!(check_row_id(0), Err(RequestError::BadRequest));
    assert_eq!(check_row_id(5), Ok(()));
    let cap = ClinicCapability { id: 5, name: "X-ray".to_string(), active: true, last_modified_by: "a@b".to_string(), last_modified_on: 1 };
    let p = PatchClinicCapabilityPayload { name: None, active: Some(false) };
    let u = p.apply(&cap, "admin@dnc.com.ph", 99).unwrap();
    assert_eq!((u.id, u.name.as_str(), u.active, u.last_modified_by.as_str(), u.last_modified_on), (5, "X-ray", false, "admin@dnc.com.ph", 99));
    let bad = PatchClinicCapabilityPayload { name: Some(" ".to_string()), active: None };
    assert_eq!(bad.apply(&cap, "x", 1).err(), Some(RequestError::BadRequest));
    let link = ClinicCapabilitiesList { id: 9, clinic_id: 2, capability_id: 5 };
    let row = to_row(link, Some(cap));
    assert_eq!((row.id, row.clinic_id, row.capability_id), (9, 2, 5));
    assert_eq!(row.capability.unwrap().name, "X-ray");
    assert!(to_row(link, None).capability.is_none());
}

#[test]
fn capability_ids_are_deduplicated_in_order() {
    let body = SetClinicCapabilitiesBody { capability_ids: vec![3, 1, 3, 2, 1, -4] };
    assert_eq!(body.distinct_ids(), vec![-4, 1, 2, 3]);
    let empty = SetClinicCapabilitiesBody { capability_ids: vec![] };
    assert!(empty.distinct_ids().is_empty());
}

#[test]
fn geography_patches() {
    let region = RegionRow { id: 1, name: "NCR".to_string() };
    assert_eq!(PatchRegionRequest { name: Some("Metro".to_string()) }.apply(&region).name, "Metro");
    assert_eq!(PatchRegionRequest { name: None }.apply(&region).name, "NCR");
    let state = StateRow { id: 2, name: "Manila".to_string(), region_id: 1 };
    let moved = PatchStateRequest { name: None, region_id: Some(3) };
    assert_eq!(moved.apply(&state, false).err(), Some(RequestError::BadRequest));
    assert_eq!(moved.apply(&state, true).unwrap().region_id, 3);
    let city = CityRow { id: 4, name: "Pasig".to_string(), state_id: 2 };
    let renamed = PatchCityRequest { name: Some("Pasig City".to_string()), state_id: None };
    let c = renamed.apply(&city, false).unwrap();
    assert_eq!((c.id, c.name.as_str(), c.state_id), (4, "Pasig City", 2));
    assert_eq!(check_parent(false), Err(RequestError::BadRequest));
    assert_eq!(check_parent(true), Ok(()));
}

#[test]
fn greeting_echoes_name_and_message() {
    let r = test_posting_json(TestJsonRequest { name: "Rolan".to_string(), message: "Hello, World".to_string() });
    assert_eq!(r.message, "Hi, Rolan! Hello, World!");
}

#[test]
fn user_creation_under_a_given_salt() {
    let d = users();
    let req = CreateUserRequest {
        name: "Ana".to_string(),
        email: "ana@dnc.com.ph".to_string(),
        password: "pw".to_string(),
        role_id: 2,
        active: true,
    };
    assert_eq!(req.validate_with_salt(&d, &[3u8; 4]).err(), Some(RequestError::Internal));
    let taken = CreateUserRequest { email: "admin@dnc.com.ph".to_string(), ..req.clone() };
    assert_eq!(taken.validate_with_salt(&d, &[3u8; 4]).err(), Some(RequestError::Conflict));
    let u = req.validate_with_salt(&d, &[3u8; 16]).unwrap();
    assert_eq!(check_password("pw", &u.password), PasswordCheck::Match);
}

#[test]
fn user_patch_conflict_wins_over_hashing() {
    let d = users();
    let mut other = d.users[0].clone();
    other.id = 2;
    other.email = "bo@dnc.com.ph".to_string();
    let p = PatchUserRequest {
        name: None,
        email: Some("admin@dnc.com.ph".to_string()),
        password: Some("new".to_string()),
        role_id: None,
        active: None,
    };
    assert_eq!(p.apply_with_salt(&d, &other, &[]).err(), Some(RequestError::Conflict));
    assert_eq!(p.apply(&d, &other).err(), Some(RequestError::Conflict));
    let no_clash = PatchUserRequest { email: None, ..p };
    assert_eq!(no_clash.apply_with_salt(&d, &other, &[]).err(), Some(RequestError::Internal));
    let u = no_clash.apply_with_salt(&d, &other, &[9u8; 16]).unwrap();
    assert_eq!(check_password("new", &u.password), PasswordCheck::Match);
}

#[test]
fn page_count_and_offset() {
    let q = ListQuery { page: Some(3), page_size: Some(10), ..query() };
    let w = q.page_window();
    assert_eq!(w.total_pages(0), 0);
    assert_eq!(w.total_pages(10), 1);
    assert_eq!(w.total_pages(11), 2);
    assert_eq!(w.total_pages(u64::MAX), u64::MAX / 10 + 1);
    assert_eq!(w.offset(), Some(20));
    let far = ListQuery { page: Some(u64::MAX), page_size: Some(200), ..query() };
    assert_eq!(far.page_window().offset(), None);
    let one = ListQuery { page_size: Some(1), ..query() }.page_window();
    assert_eq!(one.total_pages(u64::MAX), u64::MAX);
}
