//! The guard every request passes: who is calling, and may they.
//!
//! A request carries a method, a path and perhaps an `Authorization` value.
//! The guard decides from these and from the table alone. It enforces
//! authentication and the policy for anonymous access; what a role may do
//! is left to the operation behind the guard.
//!
//! A request that carries no credential and falls under the anonymous
//! policy passes without a session: none is created for it.

use crate::data::config::{stored_session, stored_user, Database};
use crate::data::store::TableView;
use crate::domain::session::{Session, SessionView};
use crate::domain::user::{profile_of, Profile, ProfileView, User};
use crate::error::Error;
use crate::text::{opt_str, starts_with, str_eq, tail_from};
use vstd::prelude::*;
use vstd::string::*;

verus! {

/// One entry of the policy for anonymous access: requests with this method
/// to paths that begin with this prefix need no identity.
#[derive(Debug)]
pub struct AccessRule {
    pub prefix: String,
    pub method: String,
}

/// What an `AccessRule` stands for.
pub struct AccessRuleView {
    pub prefix: Seq<char>,
    pub method: Seq<char>,
}

impl View for AccessRule {
    type V = AccessRuleView;

    open spec fn view(&self) -> AccessRuleView {
        AccessRuleView { prefix: self.prefix@, method: self.method@ }
    }
}

/// The configuration of the guard.
#[derive(Debug)]
pub struct AuthConfig {
    /// The policy for anonymous access.
    pub anonymous: Vec<AccessRule>,
}

/// What a policy stands for.
pub open spec fn rule_views(rules: Seq<AccessRule>) -> Seq<AccessRuleView> {
    Seq::new(rules.len(), |i: int| rules[i]@)
}

impl View for AuthConfig {
    type V = Seq<AccessRuleView>;

    open spec fn view(&self) -> Seq<AccessRuleView> {
        rule_views(self.anonymous@)
    }
}

/// Whether `rule` covers a request with `method` to `path`.
pub open spec fn rule_covers(rule: AccessRuleView, method: Seq<char>, path: Seq<char>) -> bool {
    rule.prefix.is_prefix_of(path) && rule.method == method
}

/// Whether the policy lets a request with `method` to `path` pass without
/// an identity.
pub open spec fn allows_anonymous(rules: Seq<AccessRuleView>, method: Seq<char>, path: Seq<char>)
    -> bool {
    exists|i: int| 0 <= i < rules.len() && rule_covers(#[trigger] rules[i], method, path)
}

/// `s` without any leading repetitions of `prefix`.
pub open spec fn without_leading(s: Seq<char>, prefix: Seq<char>) -> Seq<char>
    decreases s.len(),
{
    if prefix.len() > 0 && prefix.is_prefix_of(s) {
        without_leading(s.skip(prefix.len() as int), prefix)
    } else {
        s
    }
}

/// The token that an `Authorization` value carries: what follows `Bearer `,
/// with further repetitions of `Bearer ` dropped too. A value that does not
/// begin with `Bearer ` carries none.
pub open spec fn bearer_token(value: Seq<char>) -> Option<Seq<char>> {
    if "Bearer "@.is_prefix_of(value) {
        Some(without_leading(value, "Bearer "@))
    } else {
        None
    }
}

/// What the guard attaches to a request that passes.
#[derive(Debug)]
pub struct Context {
    /// The session that the credential named; `None` where the request
    /// carried no credential.
    pub session: Option<Session>,
    /// The user of the session, without the password hash; `None` for an
    /// anonymous caller.
    pub identity: Option<Profile>,
}

/// What a `Context` stands for.
pub struct ContextView {
    pub session: Option<SessionView>,
    pub identity: Option<ProfileView>,
}

impl View for Context {
    type V = ContextView;

    open spec fn view(&self) -> ContextView {
        ContextView {
            session: match self.session {
                Some(s) => Some(s@),
                None => None,
            },
            identity: match self.identity {
                Some(u) => Some(u@),
                None => None,
            },
        }
    }
}

impl Clone for Context {
    fn clone(&self) -> (copy: Self)
        ensures
            copy@ == self@,
    {
        let session = match &self.session {
            Some(s) => Some(s.clone()),
            None => None,
        };
        let identity = match &self.identity {
            Some(u) => Some(u.clone()),
            None => None,
        };
        Context { session, identity }
    }
}

/// What the guard owes a request that presents `token`, or presents none:
/// the context it passes with, or `None` where it is turned away.
///
/// Without a token the request passes only under the anonymous policy, and
/// then with an empty context. With one, the token has to name a stored
/// session. An anonymous session passes only under the anonymous policy. An
/// identified one passes wherever its user is still stored, and carries
/// the profile of that user. Nothing ever falls back to anonymous.
pub open spec fn clearance(
    rows: TableView,
    rules: Seq<AccessRuleView>,
    method: Seq<char>,
    path: Seq<char>,
    token: Option<Seq<char>>,
) -> Option<ContextView> {
    let open = allows_anonymous(rules, method, path);
    match token {
        None => if open {
            Some(ContextView { session: None, identity: None })
        } else {
            None
        },
        Some(token) => match stored_session(rows, token) {
            Err(_) => None,
            Ok(session) => match session.user_id {
                None => if open {
                    Some(ContextView { session: Some(session), identity: None })
                } else {
                    None
                },
                Some(user_id) => match stored_user(rows, user_id) {
                    Ok(user) => Some(
                        ContextView { session: Some(session), identity: Some(profile_of(user)) },
                    ),
                    Err(_) => None,
                },
            },
        },
    }
}

/// Whether a request with the `Authorization` value `authorization`, or
/// with none, presents a token: only then is the store asked.
pub open spec fn carries_token(authorization: Option<Seq<char>>) -> bool {
    match authorization {
        Some(value) => bearer_token(value) is Some,
        None => false,
    }
}

/// What the guard owes a request that carries the `Authorization` value
/// `authorization`, or carries none: what it owes the token in it, and
/// nothing where the value holds no token.
pub open spec fn header_clearance(
    rows: TableView,
    rules: Seq<AccessRuleView>,
    method: Seq<char>,
    path: Seq<char>,
    authorization: Option<Seq<char>>,
) -> Option<ContextView> {
    match authorization {
        None => clearance(rows, rules, method, path, None),
        Some(value) => match bearer_token(value) {
            Some(token) => clearance(rows, rules, method, path, Some(token)),
            None => None,
        },
    }
}

impl AuthConfig {
    /// The policy in use: anyone may `GET` what lies under `/datasets` and
    /// under `/profile`.
    pub fn standard() -> (config: AuthConfig)
        ensures
            config@ == seq![
                AccessRuleView { prefix: "/datasets"@, method: "GET"@ },
                AccessRuleView { prefix: "/profile"@, method: "GET"@ },
            ],
    {
        let mut anonymous: Vec<AccessRule> = Vec::new();
        anonymous.push(AccessRule { prefix: "/datasets".to_owned(), method: "GET".to_owned() });
        anonymous.push(AccessRule { prefix: "/profile".to_owned(), method: "GET".to_owned() });
        let config = AuthConfig { anonymous };
        config
    }

    /// Whether a request with `method` to `path` may pass without an
    /// identity.
    pub fn allows_anonymous(&self, method: &str, path: &str) -> (open: bool)
        ensures
            open == allows_anonymous(self@, method@, path@),
    {
        let n = self.anonymous.len();
        let mut i: usize = 0;
        while i < n
            invariant
                n == self.anonymous@.len(),
                i <= n,
                forall|j: int| 0 <= j < i ==> !rule_covers(#[trigger] self@[j], method@, path@),
            decreases n - i,
        {
            let rule = &self.anonymous[i];
            if starts_with(path, rule.prefix.as_str()) && str_eq(rule.method.as_str(), method) {
                assert(rule_covers(self@[i as int], method@, path@));
                return true;
            }
            i += 1;
        }
        false
    }
}

/// The token that the `Authorization` value `value` carries.
pub fn token_of(value: &str) -> (token: Option<&str>)
    ensures
        match token {
            Some(t) => bearer_token(value@) == Some(t@),
            None => bearer_token(value@) is None,
        },
{
    proof {
        reveal_strlit("Bearer ");
    }
    if !starts_with(value, "Bearer ") {
        return None;
    }
    let mut rest = value;
    while starts_with(rest, "Bearer ")
        invariant
            "Bearer "@.len() == 7,
            without_leading(rest@, "Bearer "@) == without_leading(value@, "Bearer "@),
        decreases rest@.len(),
    {
        rest = tail_from(rest, 7);
    }
    Some(rest)
}

/// Decides on a request with `method` to `path` that presents the session
/// token `token`, if any. However the token travelled, in an
/// `Authorization` value or in a cookie, this is what decides on it.
///
/// Every refusal is the same `Error::Unauthorized`: a caller cannot tell a
/// missing credential from an unknown session or a user that is gone. A
/// store that fails refuses too; but without a token no store is asked, and
/// the policy alone decides.
pub fn authorize<D: Database>(
    database: &D,
    config: &AuthConfig,
    method: &str,
    path: &str,
    token: Option<&str>,
) -> (res: Result<Context, Error>)
    ensures
        match res {
            Ok(context) => clearance(database.rows(), config@, method@, path@, opt_str(token))
                == Some(context@),
            Err(e) => e == Error::Unauthorized && (clearance(
                database.rows(),
                config@,
                method@,
                path@,
                opt_str(token),
            ) is None || (token is Some && !database.reliable())),
        },
        token is None ==> (res is Ok <==> allows_anonymous(config@, method@, path@)),
{
    let allow_anonymous = config.allows_anonymous(method, path);
    let token = match token {
        Some(token) => token,
        None => {
            if allow_anonymous {
                return Ok(Context { session: None, identity: None });
            }
            return Err(Error::Unauthorized);
        },
    };
    let session = match Session::from_id(database, token) {
        Ok(session) => session,
        Err(_) => { return Err(Error::Unauthorized); },
    };
    match &session.user_id {
        Some(user_id) => match User::from_id(database, user_id.as_str()) {
            Ok(user) => Ok(Context { session: Some(session), identity: Some(Profile::from(user)) }),
            Err(_) => Err(Error::Unauthorized),
        },
        None => {
            if !allow_anonymous {
                return Err(Error::Unauthorized);
            }
            Ok(Context { session: Some(session), identity: None })
        },
    }
}

/// Decides on a request with `method` to `path` that carries the
/// `Authorization` value `authorization`, if any. A value that is no bearer
/// credential is refused, whatever the path. Without a value the policy
/// alone decides, and a request that it covers passes with an empty context.
pub fn auth<D: Database>(
    database: &D,
    config: &AuthConfig,
    method: &str,
    path: &str,
    authorization: Option<&str>,
) -> (res: Result<Context, Error>)
    ensures
        match res {
            Ok(context) => header_clearance(
                database.rows(),
                config@,
                method@,
                path@,
                opt_str(authorization),
            ) == Some(context@),
            Err(e) => e == Error::Unauthorized && (header_clearance(
                database.rows(),
                config@,
                method@,
                path@,
                opt_str(authorization),
            ) is None || (carries_token(opt_str(authorization)) && !database.reliable())),
        },
        authorization is None ==> (res is Ok <==> allows_anonymous(config@, method@, path@)),
        authorization is None ==> (res matches Ok(context) ==> context@ == ContextView {
            session: None,
            identity: None,
        }),
{
    match authorization {
        None => authorize(database, config, method, path, None),
        Some(value) => match token_of(value) {
            Some(token) => authorize(database, config, method, path, Some(token)),
            None => Err(Error::Unauthorized),
        },
    }
}

} // verus!
