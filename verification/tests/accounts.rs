use backend::data::config::UserStore;
use backend::data::table::Table;
use backend::domain::auth::{auth, AuthConfig, Context};
use backend::domain::org::{CreateOrg, Org};
use backend::domain::session::Session;
use backend::domain::team::{CreateTeam, Team};
use backend::domain::user::{CreateUser, Profile, User};
use backend::error::Error;
use backend::routes::access::{is_superadmin, require_superadmin, Role};
use backend::routes::auth::{anonymous_login, login, logout, open_session, LoginRequest};
use backend::routes::{org, team, user};

fn new_user(email: &str, password: &str, role: &str) -> CreateUser {
    CreateUser {
        email: email.to_string(),
        first_name: "Ada".to_string(),
        last_name: "Lovelace".to_string(),
        role: role.to_string(),
        password: password.to_string(),
    }
}

fn stored(id: &str, role: &str) -> User {
    User {
        id: id.to_string(),
        email: format!("{}@example.com", id),
        first_name: "F".to_string(),
        last_name: "L".to_string(),
        role: role.to_string(),
        is_active: true,
        hash: "h".to_string(),
    }
}

fn context_of(role: Option<&str>) -> Context {
    match role {
        Some(role) => Context {
            session: Some(Session { id: "tok".to_string(), user_id: Some("u1".to_string()) }),
            identity: Some(Profile::from(stored("u1", role))),
        },
        None => Context { session: None, identity: None },
    }
}

fn request(email: &str, password: &str) -> LoginRequest {
    LoginRequest { email: email.to_string(), password: password.to_string() }
}

#[test]
fn a_registered_user_logs_in_with_the_same_pair() {
    let mut table = Table::new();
    assert_eq!(User::create(&mut table, &new_user("ada@example.com", "s3cret", "member")), Ok(()));
    let created = User::from_email(&table, "ada@example.com").unwrap();
    let response = login(&mut table, &request("ada@example.com", "s3cret")).unwrap();
    assert_eq!(response.token.len(), 30);
    let session = Session::from_id(&table, &response.token).unwrap();
    assert_eq!(session.user_id, Some(created.id));
}

#[test]
fn a_wrong_password_or_unknown_email_is_unauthorized_and_stores_nothing() {
    let mut table = Table::new();
    User::create(&mut table, &new_user("ada@example.com", "s3cret", "member")).unwrap();
    let before = table.len();
    assert_eq!(
        login(&mut table, &request("ada@example.com", "S3cret")).err(),
        Some(Error::Unauthorized)
    );
    assert_eq!(login(&mut table, &request("ada@example.com", "")).err(), Some(Error::Unauthorized));
    assert_eq!(
        login(&mut table, &request("bob@example.com", "s3cret")).err(),
        Some(Error::Unauthorized)
    );
    assert_eq!(login(&mut table, &request("", "")).err(), Some(Error::Unauthorized));
    assert_eq!(table.len(), before);
}

#[test]
fn a_new_user_is_active_and_keeps_no_password() {
    let mut table = Table::new();
    User::create(&mut table, &new_user("ada@example.com", "s3cret", "analyst")).unwrap();
    let created = User::from_email(&table, "ada@example.com").unwrap();
    assert_eq!(created.id.len(), 10);
    assert!(created.id.chars().all(|c| c.is_ascii_alphanumeric()));
    assert_eq!(created.email, "ada@example.com");
    assert_eq!(created.first_name, "Ada");
    assert_eq!(created.last_name, "Lovelace");
    assert_eq!(created.role, "analyst");
    assert!(created.is_active);
    assert_ne!(created.hash, "s3cret");
    assert!(created.hash.starts_with("$argon2"));
    assert!(!created.hash.contains("s3cret"));
    assert_eq!(table.len(), 2);
    let by_id = User::from_id(&table, &created.id).unwrap();
    assert_eq!(by_id.email, "ada@example.com");
}

#[test]
fn a_hash_accepts_its_password_only() {
    let user = User::from_create_user(&new_user("a@b.c", "pass word", "member"), "u1", false).unwrap();
    assert_eq!(user.id, "u1");
    assert!(!user.is_active);
    assert!(user.accepts("pass word"));
    assert!(!user.accepts("password"));
    assert!(!user.accepts(""));
}

#[test]
fn each_hash_has_a_salt_of_its_own() {
    let a = User::from_create_user(&new_user("a@b.c", "same", "member"), "u1", true).unwrap();
    let b = User::from_create_user(&new_user("a@b.c", "same", "member"), "u2", true).unwrap();
    assert_ne!(a.hash, b.hash);
}

#[test]
fn a_string_that_is_no_hash_accepts_nothing() {
    let user = User::with_hash(&new_user("a@b.c", "pw", "member"), "u1", true, "pw".to_string());
    assert_eq!(user.hash, "pw");
    assert!(!user.accepts("pw"));
    let empty = User::with_hash(&new_user("a@b.c", "", "member"), "u1", true, String::new());
    assert!(!empty.accepts(""));
}

#[test]
fn a_known_hash_is_verified() {
    let hash = "$argon2id$v=19$m=16,t=2,p=1$c29tZXNhbHQ$f1ApuRxLIZbT3QEKnvqfTA";
    let user = User::with_hash(&new_user("a@b.c", "x", "member"), "u1", true, hash.to_string());
    assert!(!user.accepts("definitely not the password"));
}

#[test]
fn open_session_refuses_what_was_not_accepted() {
    let mut table = Table::new();
    let u = stored("u1", "member");
    assert_eq!(open_session(&mut table, &u, false).err(), Some(Error::Unauthorized));
    assert_eq!(table.len(), 0);
    let response = open_session(&mut table, &u, true).unwrap();
    assert_eq!(Session::from_id(&table, &response.token).unwrap().user_id, Some("u1".to_string()));
    assert_eq!(table.len(), 1);
}

#[test]
fn anonymous_login_opens_a_session_without_user() {
    let mut table = Table::new();
    let response = anonymous_login(&mut table).unwrap();
    let session = Session::from_id(&table, &response.token).unwrap();
    assert_eq!(session.user_id, None);
    let header = format!("Bearer {}", response.token);
    let config = AuthConfig::standard();
    assert!(auth(&table, &config, "GET", "/datasets", Some(&header)).is_ok());
    assert_eq!(auth(&table, &config, "POST", "/orgs", Some(&header)).err(), Some(Error::Unauthorized));
}

#[test]
fn logout_ends_the_session() {
    let mut table = Table::new();
    let response = anonymous_login(&mut table).unwrap();
    let session = Session::from_id(&table, &response.token).unwrap();
    logout(&mut table, &session);
    assert_eq!(Session::from_id(&table, &response.token).err(), Some(Error::NotFound));
    logout(&mut table, &session);
    assert_eq!(table.len(), 0);
}

#[test]
fn the_first_administrator_is_made_once() {
    let mut table = Table::new();
    assert_eq!(User::ensure_admin(&mut table), Ok(true));
    let admin = User::from_email(&table, "test@example.com").unwrap();
    assert_eq!(admin.first_name, "Admin");
    assert_eq!(admin.role, "superadmin");
    assert!(admin.is_active);
    assert_eq!(admin.last_name.len(), 10);
    assert!(admin.accepts(&admin.last_name));
    assert_eq!(table.len(), 2);
    assert_eq!(User::ensure_admin(&mut table), Ok(false));
    assert_eq!(table.len(), 2);
    assert_eq!(User::from_email(&table, "test@example.com").unwrap().id, admin.id);
}

#[test]
fn roles() {
    assert_eq!(Role::of("superadmin"), Role::Superadmin);
    assert_eq!(Role::of("Superadmin"), Role::Member);
    assert_eq!(Role::of("member"), Role::Member);
    assert_eq!(Role::of(""), Role::Member);
    assert!(Role::Superadmin.may_administer());
    assert!(!Role::Member.may_administer());
    assert!(is_superadmin(&Profile::from(stored("u1", "superadmin"))));
    assert!(!is_superadmin(&Profile::from(stored("u1", "admin"))));
}

#[test]
fn only_the_superadmin_is_let_in() {
    assert_eq!(require_superadmin(&context_of(Some("superadmin"))), Ok(()));
    assert_eq!(require_superadmin(&context_of(Some("member"))), Err(Error::Forbidden));
    assert_eq!(require_superadmin(&context_of(None)), Err(Error::Unauthorized));
}

#[test]
fn org_is_created_fetched_and_deleted() {
    let mut table = Table::new();
    let admin = context_of(Some("superadmin"));
    let created = org::create(&mut table, &admin, &CreateOrg { name: "Acme".to_string() }).unwrap();
    assert_eq!(created.name, "Acme");
    assert!(created.active);
    assert_eq!(created.id.len(), 10);
    let fetched = org::get(&table, &admin, &created.id).unwrap();
    assert_eq!(fetched.id, created.id);
    assert_eq!(fetched.name, "Acme");
    assert!(fetched.active);
    assert_eq!(org::delete(&mut table, &admin, &created.id), Ok(()));
    assert_eq!(org::get(&table, &admin, &created.id).err(), Some(Error::NotFound));
}

#[test]
fn deleting_an_org_that_is_not_there_is_no_error() {
    let mut table = Table::new();
    let admin = context_of(Some("superadmin"));
    assert_eq!(org::delete(&mut table, &admin, "missing"), Ok(()));
    assert_eq!(Org::delete(&mut table, "missing"), Ok(()));
    let created = Org::create(&mut table, &CreateOrg { name: "Acme".to_string() }).unwrap();
    assert_eq!(Org::delete(&mut table, &created.id), Ok(()));
    assert_eq!(Org::delete(&mut table, &created.id), Ok(()));
    assert_eq!(Org::from_id(&table, &created.id).err(), Some(Error::NotFound));
}

#[test]
fn org_operations_are_for_the_superadmin() {
    let mut table = Table::new();
    let payload = CreateOrg { name: "Acme".to_string() };
    assert_eq!(org::create(&mut table, &context_of(Some("member")), &payload).err(), Some(Error::Forbidden));
    assert_eq!(org::create(&mut table, &context_of(None), &payload).err(), Some(Error::Unauthorized));
    assert_eq!(table.len(), 0);
    let created = Org::create(&mut table, &payload).unwrap();
    assert_eq!(org::get(&table, &context_of(Some("member")), &created.id).err(), Some(Error::Forbidden));
    assert_eq!(org::delete(&mut table, &context_of(Some("member")), &created.id), Err(Error::Forbidden));
    assert_eq!(org::delete(&mut table, &context_of(None), &created.id), Err(Error::Unauthorized));
    assert_eq!(table.len(), 1);
}

#[test]
fn team_is_created_fetched_and_listed() {
    let mut table = Table::new();
    let admin = context_of(Some("superadmin"));
    let a = team::create_team(&mut table, &admin, &CreateTeam { name: "Core".to_string() }).unwrap();
    let b = Team::create(&mut table, &CreateTeam { name: "Data".to_string() }).unwrap();
    assert_eq!(a.id.len(), 10);
    assert!(a.active);
    assert_eq!(team::get_team(&table, &admin, &a.id).unwrap().name, "Core");
    assert_eq!(Team::from_id(&table, &b.id).unwrap().name, "Data");
    assert_eq!(team::get_team(&table, &admin, "missing").err(), Some(Error::NotFound));
    let mut names: Vec<String> = table.get_teams().unwrap().into_iter().map(|t| t.name).collect();
    names.sort();
    assert_eq!(names, vec!["Core".to_string(), "Data".to_string()]);
    assert_eq!(
        team::create_team(&mut table, &context_of(Some("member")), &CreateTeam { name: "X".to_string() }).err(),
        Some(Error::Forbidden)
    );
    assert_eq!(team::get_team(&table, &context_of(None), &a.id).err(), Some(Error::Unauthorized));
    assert_eq!(table.len(), 2);
}

#[test]
fn user_registration_is_for_the_superadmin() {
    let mut table = Table::new();
    let payload = new_user("ada@example.com", "pw", "member");
    assert_eq!(user::create(&mut table, &context_of(Some("member")), &payload), Err(Error::Forbidden));
    assert_eq!(user::create(&mut table, &context_of(None), &payload), Err(Error::Unauthorized));
    assert_eq!(table.len(), 0);
    assert_eq!(user::create(&mut table, &context_of(Some("superadmin")), &payload), Ok(()));
    assert_eq!(table.len(), 2);
    assert!(table.get_user_by_email("ada@example.com").is_ok());
}

#[test]
fn profile_of_the_caller() {
    let shown = user::profile(context_of(Some("member"))).unwrap();
    assert_eq!(shown.id, "u1");
    assert_eq!(shown.email, "u1@example.com");
    assert_eq!(shown.first_name, "F");
    assert_eq!(shown.last_name, "L");
    assert_eq!(shown.role, "member");
    assert!(shown.is_active);
    assert!(user::profile(context_of(None)).is_none());
}

#[test]
fn a_context_copies() {
    let context = context_of(Some("member"));
    let copy = context.clone();
    assert_eq!(copy.session.unwrap().id, "tok");
    assert_eq!(copy.identity.unwrap().role, "member");
    assert!(context_of(None).clone().identity.is_none());
}

#[test]
fn failures_have_a_status_and_a_text() {
    assert_eq!(Error::NotFound.status(), 404);
    assert_eq!(Error::Decode.status(), 500);
    assert_eq!(Error::Unauthorized.status(), 401);
    assert_eq!(Error::Forbidden.status(), 403);
    assert_eq!(Error::Upstream.status(), 500);
    assert_eq!(Error::NotFound.to_string(), "NOT FOUND");
    assert_eq!(Error::Decode.to_string(), "MALFORMED RECORD");
    assert_eq!(Error::Unauthorized.to_string(), "UNAUTHORIZED");
    assert_eq!(Error::Forbidden.to_string(), "FORBIDDEN");
    assert_eq!(Error::Upstream.to_string(), "UPSTREAM FAILURE");
}

#[test]
fn registering_an_email_again_hands_it_to_the_new_user() {
    let mut table = Table::new();
    User::create(&mut table, &new_user("ada@example.com", "first", "member")).unwrap();
    let first = User::from_email(&table, "ada@example.com").unwrap();
    User::create(&mut table, &new_user("ada@example.com", "second", "member")).unwrap();
    let second = User::from_email(&table, "ada@example.com").unwrap();
    assert_ne!(first.id, second.id);
    assert!(login(&mut table, &request("ada@example.com", "second")).is_ok());
    assert_eq!(login(&mut table, &request("ada@example.com", "first")).err(), Some(Error::Unauthorized));
}
