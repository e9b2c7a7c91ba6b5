//! Sessions: the opaque token a caller presents, and whom it stands for.

use crate::data::config::{answers, stored_session, with_session, wrote, Database};
use crate::data::conversions::primary;
use crate::domain::common::{create_id, is_id};
use crate::domain::user::User;
use crate::error::Error;
use crate::text::opt_text;
use vstd::prelude::*;

verus! {

/// A session. With no `user_id` it is anonymous.
#[derive(Debug)]
pub struct Session {
    /// The opaque token that the caller presents.
    pub id: String,
    /// The user the session belongs to; set at creation and never changed.
    pub user_id: Option<String>,
}

/// What a `Session` stands for.
pub struct SessionView {
    pub id: Seq<char>,
    pub user_id: Option<Seq<char>>,
}

impl View for Session {
    type V = SessionView;

    open spec fn view(&self) -> SessionView {
        SessionView { id: self.id@, user_id: opt_text(self.user_id) }
    }
}

impl Clone for Session {
    fn clone(&self) -> (copy: Self)
        ensures
            copy@ == self@,
    {
        let user_id = match &self.user_id {
            Some(u) => Some(u.clone()),
            None => None,
        };
        Session { id: self.id.clone(), user_id }
    }
}

/// The id of `user`, where there is one.
pub open spec fn user_id_of(user: Option<&User>) -> Option<Seq<char>> {
    match user {
        Some(u) => Some(u@.id),
        None => None,
    }
}

impl Session {
    /// The session stored under token `id`. Nothing is repaired or
    /// refreshed: a session is there until it is deleted.
    pub fn from_id<T: Database>(database: &T, id: &str) -> (res: Result<Session, Error>)
        ensures
            answers(res, stored_session(database.rows(), id@), database.reliable()),
    {
        database.get_session_by_id(id)
    }

    /// Creates and stores a session under a fresh token of thirty
    /// characters: one of `user` where a user is given, an anonymous one
    /// otherwise. The session that is returned is the one that was stored.
    pub fn create<T: Database>(database: &mut T, user: Option<&User>) -> (res: Result<
        Session,
        Error,
    >)
        ensures
            final(database).reliable() == old(database).reliable(),
            old(database).reliable() ==> res is Ok,
            match res {
                Ok(session) => {
                    &&& is_id(session@.id, 30)
                    &&& session@.user_id == user_id_of(user)
                    &&& final(database).rows() == with_session(old(database).rows(), session@)
                },
                Err(e) => e == Error::Upstream && !old(database).reliable()
                    && final(database).rows() == old(database).rows(),
            },
    {
        let session_id = create_id(30);
        match database.create_session(user, session_id.as_str()) {
            Ok(()) => {},
            Err(e) => { return Err(e); },
        }
        let user_id = match user {
            Some(u) => Some(u.id.clone()),
            None => None,
        };
        Ok(Session { id: session_id, user_id })
    }

    /// Removes the session stored under token `id`. Where there is none,
    /// nothing changes and nothing fails.
    pub fn delete<T: Database>(database: &mut T, id: &str) -> (res: Result<(), Error>)
        ensures
            final(database).reliable() == old(database).reliable(),
            old(database).reliable() ==> res is Ok,
            wrote(
                res,
                old(database).rows(),
                final(database).rows(),
                old(database).rows().remove(primary("SESSION#"@, id@)),
                old(database).reliable(),
            ),
    {
        database.delete_session(id)
    }
}

} // verus!
