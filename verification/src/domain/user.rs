//! Users, the email record that leads back to each of them, and the profile
//! that is shown of them.

use argon2::Argon2;
use argon2::password_hash::rand_core::OsRng;
use argon2::password_hash::{PasswordHash, PasswordHasher, PasswordVerifier, SaltString};
use crate::data::config::{answers, stored_user, user_by_email, with_user, with_user_only, Database};
use crate::data::store::TableView;
use crate::domain::common::{create_id, is_id, is_id_char};
use crate::error::Error;
use vstd::prelude::*;
use vstd::utf8::{encode_utf8, is_ascii_chars, is_ascii_chars_encode_utf8};

verus! {

/// Whether `Argon2::default().verify_password` accepts `password` for the
/// PHC string `hash`. A string that is no PHC string accepts nothing.
pub uninterp spec fn password_matches(password: Seq<char>, hash: Seq<char>) -> bool;

/// Whether `password` is one that `argon2` hashes: its UTF-8 form is at most
/// 2^32 - 1 bytes long.
pub open spec fn hashable(password: Seq<char>) -> bool {
    encode_utf8(password).len() <= 0xFFFF_FFFF
}

/// An id is hashable as a password: it is as many bytes as it has letters
/// and digits.
pub proof fn lemma_id_hashable(id: Seq<char>, len: nat)
    requires
        is_id(id, len),
        len <= 0xFFFF_FFFF,
    ensures
        hashable(id),
{
    assert(is_ascii_chars(id)) by {
        assert forall|i: int| 0 <= i < id.len() implies '\0' <= #[trigger] id[i] <= '\u{7f}' by {
            assert(is_id_char(id[i]));
        }
    }
    is_ascii_chars_encode_utf8(id);
}

/// Draws a salt by `SaltString::generate` from the operating system's random
/// source, calls `Argon2::default().hash_password` with it, and writes the
/// hash as a PHC string. Trusted: the call fails on a password of more than
/// 2^32 - 1 bytes and on no other, the salt being sixteen bytes and the
/// parameters the default ones; and `verify_password` accepts the password
/// for the string, since it hashes again with the salt and the parameters
/// that the string holds. Of the salt, and so of the string, nothing else
/// is said.
#[verifier::external_body]
fn hash_password(password: &str) -> (hash: Option<String>)
    ensures
        hash is Some <==> hashable(password@),
        hash matches Some(h) ==> password_matches(password@, h@),
{
    let salt = SaltString::generate(&mut OsRng);
    Argon2::default().hash_password(password.as_bytes(), &salt).ok().map(|h| h.to_string())
}

/// Calls `PasswordHash::new` on `hash` and, where that gives a hash,
/// `Argon2::default().verify_password`. Trusted: the answer is the one that
/// `password_matches` names, the same for the same two strings.
#[verifier::external_body]
fn verify_password(password: &str, hash: &str) -> (ok: bool)
    ensures
        ok == password_matches(password@, hash@),
{
    match PasswordHash::new(hash) {
        Ok(parsed) => Argon2::default().verify_password(password.as_bytes(), &parsed).is_ok(),
        Err(_) => false,
    }
}

/// A registered user.
#[derive(Debug)]
pub struct User {
    pub id: String,
    pub email: String,
    pub first_name: String,
    pub last_name: String,
    /// The role tag, such as `superadmin`.
    pub role: String,
    pub is_active: bool,
    /// The password hash, in PHC string form.
    pub hash: String,
}

/// What a `User` stands for.
pub struct UserView {
    pub id: Seq<char>,
    pub email: Seq<char>,
    pub first_name: Seq<char>,
    pub last_name: Seq<char>,
    pub role: Seq<char>,
    pub is_active: bool,
    pub hash: Seq<char>,
}

impl View for User {
    type V = UserView;

    open spec fn view(&self) -> UserView {
        UserView {
            id: self.id@,
            email: self.email@,
            first_name: self.first_name@,
            last_name: self.last_name@,
            role: self.role@,
            is_active: self.is_active,
            hash: self.hash@,
        }
    }
}

impl Clone for User {
    fn clone(&self) -> (copy: Self)
        ensures
            copy@ == self@,
    {
        User {
            id: self.id.clone(),
            email: self.email.clone(),
            first_name: self.first_name.clone(),
            last_name: self.last_name.clone(),
            role: self.role.clone(),
            is_active: self.is_active,
            hash: self.hash.clone(),
        }
    }
}

/// What is asked of a new user.
#[derive(Debug)]
pub struct CreateUser {
    pub email: String,
    pub first_name: String,
    pub last_name: String,
    pub role: String,
    pub password: String,
}

/// What a `CreateUser` stands for.
pub struct CreateUserView {
    pub email: Seq<char>,
    pub first_name: Seq<char>,
    pub last_name: Seq<char>,
    pub role: Seq<char>,
    pub password: Seq<char>,
}

impl View for CreateUser {
    type V = CreateUserView;

    open spec fn view(&self) -> CreateUserView {
        CreateUserView {
            email: self.email@,
            first_name: self.first_name@,
            last_name: self.last_name@,
            role: self.role@,
            password: self.password@,
        }
    }
}

/// The record that leads from an email address to the user who owns it.
#[derive(Debug)]
pub struct Email {
    pub email: String,
    pub user_id: String,
}

/// What an `Email` stands for.
pub struct EmailView {
    pub email: Seq<char>,
    pub user_id: Seq<char>,
}

impl View for Email {
    type V = EmailView;

    open spec fn view(&self) -> EmailView {
        EmailView { email: self.email@, user_id: self.user_id@ }
    }
}

/// A user as shown to callers: everything but the password hash.
#[derive(Debug)]
pub struct Profile {
    pub id: String,
    pub email: String,
    pub first_name: String,
    pub last_name: String,
    pub role: String,
    pub is_active: bool,
}

/// What a `Profile` stands for.
pub struct ProfileView {
    pub id: Seq<char>,
    pub email: Seq<char>,
    pub first_name: Seq<char>,
    pub last_name: Seq<char>,
    pub role: Seq<char>,
    pub is_active: bool,
}

impl View for Profile {
    type V = ProfileView;

    open spec fn view(&self) -> ProfileView {
        ProfileView {
            id: self.id@,
            email: self.email@,
            first_name: self.first_name@,
            last_name: self.last_name@,
            role: self.role@,
            is_active: self.is_active,
        }
    }
}

/// The profile of `u`: its fields without the hash.
pub open spec fn profile_of(u: UserView) -> ProfileView {
    ProfileView {
        id: u.id,
        email: u.email,
        first_name: u.first_name,
        last_name: u.last_name,
        role: u.role,
        is_active: u.is_active,
    }
}

impl Clone for Profile {
    fn clone(&self) -> (copy: Self)
        ensures
            copy@ == self@,
    {
        Profile {
            id: self.id.clone(),
            email: self.email.clone(),
            first_name: self.first_name.clone(),
            last_name: self.last_name.clone(),
            role: self.role.clone(),
            is_active: self.is_active,
        }
    }
}

impl From<User> for Profile {
    /// The profile of `value`: its fields without the hash.
    fn from(value: User) -> (profile: Profile) {
        Profile {
            id: value.id,
            email: value.email,
            first_name: value.first_name,
            last_name: value.last_name,
            role: value.role,
            is_active: value.is_active,
        }
    }
}

impl vstd::std_specs::convert::FromSpecImpl<User> for Profile {
    open spec fn obeys_from_spec() -> bool {
        true
    }

    open spec fn from_spec(value: User) -> Profile {
        Profile {
            id: value.id,
            email: value.email,
            first_name: value.first_name,
            last_name: value.last_name,
            role: value.role,
            is_active: value.is_active,
        }
    }
}

/// The user that `c` asks for, under `id` and with password hash `hash`.
pub open spec fn user_from(c: CreateUserView, id: Seq<char>, is_active: bool, hash: Seq<char>)
    -> UserView {
    UserView {
        id,
        email: c.email,
        first_name: c.first_name,
        last_name: c.last_name,
        role: c.role,
        is_active,
        hash,
    }
}

/// Whether `u` is a user newly made for `c`: active, under an id of ten
/// letters and digits, with what `c` gives and a hash of its password.
pub open spec fn is_new_user(u: UserView, c: CreateUserView) -> bool {
    &&& u == user_from(c, u.id, true, u.hash)
    &&& is_id(u.id, 10)
    &&& password_matches(c.password, u.hash)
}

impl User {
    /// Registers the user that `user` asks for: under a fresh id of ten
    /// characters, active, and with a hash of the password in place of the
    /// password. On a reliable store this fails only for a password too long
    /// to hash, and then nothing is written; see `UserStore::create_user` for
    /// what a failed second write leaves behind.
    pub fn create<T: Database>(database: &mut T, user: &CreateUser) -> (res: Result<(), Error>)
        ensures
            final(database).reliable() == old(database).reliable(),
            old(database).reliable() && hashable(user@.password) ==> res is Ok,
            match res {
                Ok(()) => exists|u: UserView|
                    is_new_user(u, user@) && final(database).rows() == #[trigger] with_user(
                        old(database).rows(),
                        u,
                    ),
                Err(e) => {
                    &&& e == Error::Upstream
                    &&& !hashable(user@.password) || !old(database).reliable()
                    &&& !hashable(user@.password) ==> final(database).rows() == old(
                        database,
                    ).rows()
                    &&& final(database).rows() == old(database).rows() || exists|u: UserView|
                        is_new_user(u, user@) && final(database).rows() == #[trigger] with_user_only(
                            old(database).rows(),
                            u,
                        )
                },
            },
    {
        let user_id = create_id(10);
        let new_user = match User::from_create_user(user, user_id.as_str(), true) {
            Ok(new_user) => new_user,
            Err(e) => { return Err(e); },
        };
        let res = database.create_user(&new_user);
        proof {
            if res is Ok {
                assert(database.rows() == with_user(old(database).rows(), new_user@));
            } else if database.rows() != old(database).rows() {
                assert(database.rows() == with_user_only(old(database).rows(), new_user@));
            }
        }
        res
    }

    /// The user stored under `id`.
    pub fn from_id<T: Database>(database: &T, id: &str) -> (res: Result<User, Error>)
        ensures
            answers(
                res,
                stored_user(database.rows(), id@),
                database.reliable(),
            ),
    {
        database.get_user_by_id(id)
    }

    /// The user who owns `email`.
    pub fn from_email<T: Database>(database: &T, email: &str) -> (res: Result<User, Error>)
        ensures
            answers(
                res,
                user_by_email(database.rows(), email@),
                database.reliable(),
            ),
    {
        database.get_user_by_email(email)
    }

    /// The user that `create_user` asks for, under `id`: its password is
    /// hashed with a fresh salt. `Error::Upstream` for a password too long to
    /// hash, and for no other.
    pub fn from_create_user(create_user: &CreateUser, id: &str, is_active: bool) -> (res: Result<
        User,
        Error,
    >)
        ensures
            res is Ok <==> hashable(create_user@.password),
            match res {
                Ok(u) => u@ == user_from(create_user@, id@, is_active, u@.hash) && password_matches(
                    create_user@.password,
                    u@.hash,
                ),
                Err(e) => e == Error::Upstream,
            },
    {
        match hash_password(create_user.password.as_str()) {
            Some(hash) => Ok(User::with_hash(create_user, id, is_active, hash)),
            None => Err(Error::Upstream),
        }
    }

    /// The user that `create_user` asks for, under `id` and with the
    /// password hash `hash`.
    pub fn with_hash(create_user: &CreateUser, id: &str, is_active: bool, hash: String) -> (user:
        User)
        ensures
            user@ == user_from(create_user@, id@, is_active, hash@),
    {
        User {
            id: id.to_owned(),
            email: create_user.email.clone(),
            first_name: create_user.first_name.clone(),
            last_name: create_user.last_name.clone(),
            role: create_user.role.clone(),
            is_active,
            hash,
        }
    }

    /// Whether `password` is the password of this user.
    pub fn accepts(&self, password: &str) -> (ok: bool)
        ensures
            ok == password_matches(password@, self@.hash),
    {
        verify_password(password, self.hash.as_str())
    }
}

/// Whether `u` is a first administrator: a new, active superadmin named
/// `Admin` who owns `test@example.com`, whose password is ten letters and
/// digits, and whose last name is that password. That is how the password,
/// which is drawn at random and stored only as a hash, can be learnt: by
/// whoever can read the table.
pub open spec fn is_first_admin(u: UserView) -> bool {
    &&& u.email == "test@example.com"@
    &&& u.first_name == "Admin"@
    &&& u.role == "superadmin"@
    &&& u.is_active
    &&& is_id(u.id, 10)
    &&& is_id(u.last_name, 10)
    &&& password_matches(u.last_name, u.hash)
}

impl User {
    /// Sees to it that the system has an administrator to begin with, and
    /// says what it did: `Ok(false)` where a user who owns `test@example.com`
    /// was found, and nothing was written; `Ok(true)` where none was found
    /// and one was registered, with a password drawn at random.
    pub fn ensure_admin<T: Database>(database: &mut T) -> (res: Result<bool, Error>)
        ensures
            final(database).reliable() == old(database).reliable(),
            old(database).reliable() ==> res == Ok::<bool, Error>(
                user_by_email(old(database).rows(), "test@example.com"@) is Err,
            ),
            match res {
                Ok(false) => {
                    &&& user_by_email(old(database).rows(), "test@example.com"@) is Ok
                    &&& final(database).rows() == old(database).rows()
                },
                Ok(true) => {
                    &&& was_not_found(old(database).rows(), old(database).reliable())
                    &&& exists|u: UserView|
                        is_first_admin(u) && final(database).rows() == #[trigger] with_user(
                            old(database).rows(),
                            u,
                        )
                },
                Err(e) => {
                    &&& e == Error::Upstream
                    &&& !old(database).reliable()
                    &&& final(database).rows() == old(database).rows() || exists|u: UserView|
                        is_first_admin(u) && final(database).rows() == #[trigger] with_user_only(
                            old(database).rows(),
                            u,
                        )
                },
            },
    {
        if User::from_email(&*database, "test@example.com").is_ok() {
            return Ok(false);
        }
        let password = create_id(10);
        let admin_user = CreateUser {
            email: "test@example.com".to_owned(),
            first_name: "Admin".to_owned(),
            last_name: password.clone(),
            role: "superadmin".to_owned(),
            password,
        };
        proof {
            lemma_id_hashable(admin_user@.password, 10);
        }
        let res = User::create(database, &admin_user);
        proof {
            if database.rows() != old(database).rows() || res is Ok {
                let u = choose|u: UserView|
                    is_new_user(u, admin_user@) && (database.rows() == with_user(
                        old(database).rows(),
                        u,
                    ) || database.rows() == with_user_only(old(database).rows(), u));
                assert(is_first_admin(u));
            }
        }
        match res {
            Ok(()) => Ok(true),
            Err(e) => Err(e),
        }
    }
}

/// Whether the look for a first administrator in `rows` found none: no user
/// owns `test@example.com` there, or the store, not being reliable, failed.
pub open spec fn was_not_found(rows: TableView, reliable: bool) -> bool {
    user_by_email(rows, "test@example.com"@) is Err || !reliable
}

} // verus!
