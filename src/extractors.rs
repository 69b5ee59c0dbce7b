//! Resolving the current user of a request, at most once per request, and
//! the outcomes of the `CurrentUser` and `AuthUser` accessors.
use vstd::prelude::*;
use crate::cookie_session::{decode_spec, lemma_no_cookie};
use crate::login_info::LoginInfo;

verus! {

/// The resolved user of a request, for handlers that require one.
pub struct CurrentUser<T>(pub T);

impl<T> CurrentUser<T> {
    pub fn from(value: T) -> (r: Self)
        ensures
            r.0 == value,
    {
        CurrentUser(value)
    }
}

/// The resolved user of a request, which must also report itself as
/// authenticated and active.
pub struct AuthUser<T>(pub T);

impl<T> AuthUser<T> {
    pub fn from(value: T) -> (r: Self)
        ensures
            r.0 == value,
    {
        AuthUser(value)
    }
}

/// Why an accessor refused a request.
#[derive(Clone, Copy, PartialEq, Eq, Debug)]
pub enum Rejection {
    /// There is no user, or the user may not proceed: status 401.
    Unauthorized,
    /// The login middleware did not run for this request: status 500.
    MissingMiddleware,
}

impl Rejection {
    /// The HTTP status of the response that reports this rejection.
    pub fn status(&self) -> (r: u16)
        ensures
            r == (match self {
                Rejection::Unauthorized => 401u16,
                Rejection::MissingMiddleware => 500u16,
            }),
    {
        match self {
            Rejection::Unauthorized => 401,
            Rejection::MissingMiddleware => 500,
        }
    }
}

/// Lets a handler record a login or logout for the current request.
pub struct AuthContext(pub LoginInfo);

impl AuthContext {
    /// Records that the user with this serialized key logged in.
    pub fn login(&mut self, key_str: String)
        ensures
            final(self).0@ == crate::login_info::login_spec(old(self).0@, key_str@),
    {
        self.0.login(key_str);
    }

    /// Records that the user logged out.
    pub fn logout(&mut self)
        ensures
            final(self).0@ == crate::login_info::logout_spec(old(self).0@),
    {
        self.0.logout();
    }
}

/// The next step in resolving the current user.
pub enum Lookup {
    /// The user was already resolved in this request: use that answer.
    Cached,
    /// The request carries no user key: there is no user, and the resolver
    /// is not called.
    Anonymous,
    /// Call the resolver with this serialized user key.
    Resolve(String),
}

/// The meaning of a [`Lookup`].
pub enum LookupModel {
    Cached,
    Anonymous,
    Resolve(Seq<char>),
}

impl View for Lookup {
    type V = LookupModel;

    open spec fn view(&self) -> LookupModel {
        match self {
            Lookup::Cached => LookupModel::Cached,
            Lookup::Anonymous => LookupModel::Anonymous,
            Lookup::Resolve(k) => LookupModel::Resolve(k@),
        }
    }
}

/// The step taken when `resolved` holds the answer cached so far, if any,
/// and `recovered` the user key from the session cookie.
pub open spec fn lookup_spec<U>(resolved: Option<Option<U>>, recovered: Option<Seq<char>>) -> LookupModel {
    match resolved {
        Some(_) => LookupModel::Cached,
        None => match recovered {
            None => LookupModel::Anonymous,
            Some(k) => LookupModel::Resolve(k),
        },
    }
}

/// The cache after an answer `found` is offered: the first answer stays.
pub open spec fn store_spec<U>(resolved: Option<Option<U>>, found: Option<U>) -> Option<Option<U>> {
    match resolved {
        Some(prev) => Some(prev),
        None => Some(found),
    }
}

/// The user a cached answer hands out.
pub open spec fn cached_user<U>(resolved: Option<Option<U>>) -> Option<U> {
    match resolved {
        Some(found) => found,
        None => None,
    }
}

/// The per-request cache of the resolved user: the resolver's answer, found
/// or not, is kept for the rest of the request.
pub struct UserSlot<U> {
    resolved: Option<Option<U>>,
}

impl<U> UserSlot<U> {
    /// The answer cached so far, if the resolver was consulted.
    pub closed spec fn resolved(&self) -> Option<Option<U>> {
        self.resolved
    }

    /// An empty cache.
    pub fn new() -> (r: Self)
        ensures
            r.resolved() is None,
    {
        UserSlot { resolved: None }
    }

    /// What to do to obtain the current user of a request with login
    /// record `info`.
    pub fn next_step(&self, info: &LoginInfo) -> (r: Lookup)
        ensures
            r@ == lookup_spec(self.resolved(), info@.recovered),
    {
        match &self.resolved {
            Some(_) => Lookup::Cached,
            None => match info.get_key() {
                None => Lookup::Anonymous,
                Some(k) => Lookup::Resolve(k),
            },
        }
    }

    /// Keeps the resolver's answer; a later call changes nothing.
    pub fn store(&mut self, found: Option<U>)
        ensures
            final(self).resolved() == store_spec(old(self).resolved(), found),
    {
        if self.resolved.is_none() {
            self.resolved = Some(found);
        }
    }

    /// The cached user, if one was found.
    pub fn user(&self) -> (r: Option<&U>)
        ensures
            match r {
                Some(u) => cached_user(self.resolved()) == Some(*u),
                None => cached_user(self.resolved()) is None,
            },
    {
        match &self.resolved {
            Some(Some(u)) => Some(u),
            _ => None,
        }
    }
}

/// The outcome of `CurrentUser<T>`: the user, or 401 when there is none.
pub fn current_user<U>(found: Option<U>) -> (r: Result<CurrentUser<U>, Rejection>)
    ensures
        match found {
            Some(u) => r == Ok::<CurrentUser<U>, Rejection>(CurrentUser(u)),
            None => r == Err::<CurrentUser<U>, Rejection>(Rejection::Unauthorized),
        },
{
    match found {
        Some(u) => Ok(CurrentUser(u)),
        None => Err(Rejection::Unauthorized),
    }
}

/// The outcome of `AuthUser<T>`: the user when there is one that is
/// authenticated and active, else 401.
pub fn auth_user<U>(found: Option<U>, authenticated: bool, active: bool) -> (r: Result<
    AuthUser<U>,
    Rejection,
>)
    ensures
        match found {
            Some(u) => if authenticated && active {
                r == Ok::<AuthUser<U>, Rejection>(AuthUser(u))
            } else {
                r == Err::<AuthUser<U>, Rejection>(Rejection::Unauthorized)
            },
            None => r == Err::<AuthUser<U>, Rejection>(Rejection::Unauthorized),
        },
{
    match found {
        Some(u) => {
            if authenticated && active {
                Ok(AuthUser(u))
            } else {
                Err(Rejection::Unauthorized)
            }
        },
        None => Err(Rejection::Unauthorized),
    }
}

/// The outcome of `AuthUser<Option<T>>`: no user is accepted, a user that is
/// not authenticated or not active is refused with 401.
pub fn auth_user_opt<U>(found: Option<U>, authenticated: bool, active: bool) -> (r: Result<
    AuthUser<Option<U>>,
    Rejection,
>)
    ensures
        match found {
            Some(u) => if authenticated && active {
                r == Ok::<AuthUser<Option<U>>, Rejection>(AuthUser(Some(u)))
            } else {
                r == Err::<AuthUser<Option<U>>, Rejection>(Rejection::Unauthorized)
            },
            None => r == Ok::<AuthUser<Option<U>>, Rejection>(AuthUser(None)),
        },
{
    match found {
        Some(u) => {
            if authenticated && active {
                Ok(AuthUser(Some(u)))
            } else {
                Err(Rejection::Unauthorized)
            }
        },
        None => Ok(AuthUser(None)),
    }
}

/// At most one lookup: once the first answer is stored, every later step in
/// the same request uses it, a later answer of the resolver changes nothing,
/// and the user handed out is the one first stored.
pub proof fn lemma_at_most_one_lookup<U>(
    first: Option<U>,
    later: Option<U>,
    recovered: Option<Seq<char>>,
)
    ensures
        lookup_spec(store_spec(None, first), recovered) == LookupModel::Cached,
        store_spec(store_spec(None, first), later) == store_spec(None, first),
        cached_user(store_spec(store_spec(None, first), later)) == first,
{
}

/// A request without any `Cookie` header recovers no user key, so its
/// current user is resolved to no user without a call to the resolver.
pub proof fn lemma_anonymous_default<U>(master: Seq<u8>, name: Seq<char>, fp: Seq<char>)
    ensures
        lookup_spec(None::<Option<U>>, decode_spec(master, name, Seq::empty(), fp))
            == LookupModel::Anonymous,
{
    lemma_no_cookie(master, name, fp);
}

} // verus!
