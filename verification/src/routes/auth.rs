//! Logging in and out.

use crate::data::config::{user_by_email, with_session, Database};
use crate::data::conversions::primary;
use crate::data::store::TableView;
use crate::domain::common::is_id;
use crate::domain::session::{Session, SessionView};
use crate::domain::user::{password_matches, User, UserView};
use crate::error::Error;
use vstd::prelude::*;

verus! {

/// What a caller gives to log in.
#[derive(Debug)]
pub struct LoginRequest {
    pub email: String,
    pub password: String,
}

/// What a caller gets on logging in: the token to present from then on.
#[derive(Debug)]
pub struct LoginResponse {
    pub token: String,
}

/// The user that `email` and `password` log in as, if they log in as one:
/// the user who owns the email, where the password is that user's.
pub open spec fn login_user(rows: TableView, email: Seq<char>, password: Seq<char>) -> Option<
    UserView,
> {
    match user_by_email(rows, email) {
        Ok(u) => if password_matches(password, u.hash) {
            Some(u)
        } else {
            None
        },
        Err(_) => None,
    }
}

/// Opens a session for `user` where its password was accepted, and refuses
/// where it was not. A refusal stores nothing.
pub fn open_session<D: Database>(database: &mut D, user: &User, accepted: bool) -> (res: Result<
    LoginResponse,
    Error,
>)
    ensures
        final(database).reliable() == old(database).reliable(),
        match res {
            Ok(response) => accepted && is_id(response.token@, 30) && final(database).rows()
                == with_session(
                old(database).rows(),
                SessionView { id: response.token@, user_id: Some(user@.id) },
            ),
            Err(e) => e == Error::Unauthorized && final(database).rows() == old(database).rows() && (
            !accepted || !old(database).reliable()),
        },
{
    if !accepted {
        return Err(Error::Unauthorized);
    }
    match Session::create(database, Some(user)) {
        Ok(session) => Ok(LoginResponse { token: session.id }),
        Err(_) => Err(Error::Unauthorized),
    }
}

/// Logs in with an email and a password, and returns the token of a new
/// session of the user who owns them.
///
/// An unknown email and a wrong password are refused alike, with
/// `Error::Unauthorized`, and no session is stored for either. So is a
/// login during which the store fails.
pub fn login<D: Database>(database: &mut D, request: &LoginRequest) -> (res: Result<
    LoginResponse,
    Error,
>)
    ensures
        final(database).reliable() == old(database).reliable(),
        match res {
            Ok(response) => {
                &&& login_user(old(database).rows(), request.email@, request.password@) matches Some(
                    u,
                )
                &&& is_id(response.token@, 30)
                &&& final(database).rows() == with_session(
                    old(database).rows(),
                    SessionView { id: response.token@, user_id: Some(u.id) },
                )
            },
            Err(e) => {
                &&& e == Error::Unauthorized
                &&& final(database).rows() == old(database).rows()
                &&& login_user(old(database).rows(), request.email@, request.password@) is None
                    || !old(database).reliable()
            },
        },
        login_user(old(database).rows(), request.email@, request.password@) is None ==> res == Err::<
            LoginResponse,
            Error,
        >(Error::Unauthorized) && final(database).rows() == old(database).rows(),
{
    let user = match User::from_email(&*database, request.email.as_str()) {
        Ok(user) => user,
        Err(_) => { return Err(Error::Unauthorized); },
    };
    let accepted = user.accepts(request.password.as_str());
    open_session(database, &user, accepted)
}

/// Opens an anonymous session and returns its token.
pub fn anonymous_login<D: Database>(database: &mut D) -> (res: Result<LoginResponse, Error>)
    ensures
        final(database).reliable() == old(database).reliable(),
        old(database).reliable() ==> res is Ok,
        match res {
            Ok(response) => is_id(response.token@, 30) && final(database).rows() == with_session(
                old(database).rows(),
                SessionView { id: response.token@, user_id: None },
            ),
            Err(e) => e == Error::Upstream && !old(database).reliable() && final(database).rows()
                == old(database).rows(),
        },
{
    match Session::create(database, None) {
        Ok(session) => Ok(LoginResponse { token: session.id }),
        Err(e) => Err(e),
    }
}

/// Ends `session`. The caller is told of success whatever the store said:
/// where the store failed, the session is still there.
pub fn logout<D: Database>(database: &mut D, session: &Session)
    ensures
        final(database).reliable() == old(database).reliable(),
        final(database).rows() == old(database).rows().remove(primary("SESSION#"@, session@.id))
            || (!old(database).reliable() && final(database).rows() == old(database).rows()),
{
    let _ = Session::delete(database, session.id.as_str());
}

} // verus!
