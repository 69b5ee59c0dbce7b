//! The per-request login record and its state machine.
use vstd::prelude::*;

verus! {

/// What a handler decided about the session during one request.
pub enum Intent {
    /// Nothing was decided: the client's cookie is left as it is.
    Unset,
    /// A user logged in; the string is the serialized user key.
    LoggedIn(String),
    /// The user logged out.
    LoggedOut,
}

/// The meaning of an [`Intent`], with the user key as characters.
pub enum IntentModel {
    Unset,
    LoggedIn(Seq<char>),
    LoggedOut,
}

impl View for Intent {
    type V = IntentModel;

    open spec fn view(&self) -> IntentModel {
        match self {
            Intent::Unset => IntentModel::Unset,
            Intent::LoggedIn(k) => IntentModel::LoggedIn(k@),
            Intent::LoggedOut => IntentModel::LoggedOut,
        }
    }
}

/// The characters of an optional string.
pub open spec fn opt_chars(o: Option<String>) -> Option<Seq<char>> {
    match o {
        Some(s) => Some(s@),
        None => None,
    }
}

/// A copy of an optional string.
pub fn clone_opt(o: &Option<String>) -> (r: Option<String>)
    ensures
        opt_chars(r) == opt_chars(*o),
{
    match o {
        Some(s) => Some(s.clone()),
        None => None,
    }
}

/// The abstract state of a request's login record.
pub struct LoginState {
    /// The user key recovered from the inbound cookie.
    pub recovered: Option<Seq<char>>,
    /// The decision to be written to the outbound cookie.
    pub intent: IntentModel,
    /// The request fingerprint, once computed.
    pub fingerprint: Option<Seq<char>>,
}

/// The fields behind a [`LoginInfo`].
pub struct LoginInfoInner {
    pub key_str: Option<String>,
    pub intent: Intent,
    pub ext: Option<String>,
}

impl View for LoginInfoInner {
    type V = LoginState;

    open spec fn view(&self) -> LoginState {
        LoginState {
            recovered: opt_chars(self.key_str),
            intent: self.intent@,
            fingerprint: opt_chars(self.ext),
        }
    }
}

/// The state in which every request starts.
pub open spec fn initial_state() -> LoginState {
    LoginState { recovered: None, intent: IntentModel::Unset, fingerprint: None }
}

/// The state after `login(key)`: the last decision wins.
pub open spec fn login_spec(s: LoginState, key: Seq<char>) -> LoginState {
    LoginState { intent: IntentModel::LoggedIn(key), ..s }
}

/// The state after `logout()`: the recovered key is forgotten as well.
pub open spec fn logout_spec(s: LoginState) -> LoginState {
    LoginState { recovered: None, intent: IntentModel::LoggedOut, ..s }
}

impl LoginInfoInner {
    pub fn new() -> (r: Self)
        ensures
            r@ == initial_state(),
    {
        LoginInfoInner { key_str: None, intent: Intent::Unset, ext: None }
    }

    pub fn login(&mut self, key_str: String)
        ensures
            final(self)@ == login_spec(old(self)@, key_str@),
    {
        self.intent = Intent::LoggedIn(key_str);
    }

    pub fn logout(&mut self)
        ensures
            final(self)@ == logout_spec(old(self)@),
    {
        self.key_str = None;
        self.intent = Intent::LoggedOut;
    }
}

impl Default for LoginInfoInner {
    fn default() -> (r: Self)
        ensures
            r@ == initial_state(),
    {
        LoginInfoInner::new()
    }
}

/// The login record of one request, shared by the cookie decoder, the
/// handler and the cookie writer of that request.
pub struct LoginInfo {
    inner: LoginInfoInner,
}

impl View for LoginInfo {
    type V = LoginState;

    closed spec fn view(&self) -> LoginState {
        self.inner@
    }
}

impl LoginInfo {
    pub fn new() -> (r: Self)
        ensures
            r@ == initial_state(),
    {
        LoginInfo { inner: LoginInfoInner::new() }
    }

    /// Records that the user with this serialized key logged in.
    pub fn login(&mut self, key_str: String)
        ensures
            final(self)@ == login_spec(old(self)@, key_str@),
    {
        self.inner.login(key_str);
    }

    /// Records that the user logged out.
    pub fn logout(&mut self)
        ensures
            final(self)@ == logout_spec(old(self)@),
    {
        self.inner.logout();
    }

    /// The user key recovered from the inbound cookie.
    pub fn get_key(&self) -> (r: Option<String>)
        ensures
            opt_chars(r) == self@.recovered,
    {
        clone_opt(&self.inner.key_str)
    }

    /// Sets the user key recovered from the inbound cookie.
    pub fn set_key(&mut self, key_str: Option<String>)
        ensures
            final(self)@ == (LoginState { recovered: opt_chars(key_str), ..old(self)@ }),
    {
        self.inner.key_str = key_str;
    }

    /// The key of the user who logged in during this request, if that is the
    /// current decision.
    pub fn login_key(&self) -> (r: Option<String>)
        ensures
            opt_chars(r) == (match self@.intent {
                IntentModel::LoggedIn(k) => Some(k),
                _ => None,
            }),
    {
        match &self.inner.intent {
            Intent::LoggedIn(k) => Some(k.clone()),
            _ => None,
        }
    }

    /// Whether the current decision is a login.
    pub fn is_login(&self) -> (r: bool)
        ensures
            r == self@.intent is LoggedIn,
    {
        match &self.inner.intent {
            Intent::LoggedIn(_) => true,
            _ => false,
        }
    }

    /// Whether the current decision is a logout.
    pub fn is_logout(&self) -> (r: bool)
        ensures
            r == self@.intent is LoggedOut,
    {
        match &self.inner.intent {
            Intent::LoggedOut => true,
            _ => false,
        }
    }

    /// The request fingerprint cached on this record.
    pub fn ext(&self) -> (r: Option<String>)
        ensures
            opt_chars(r) == self@.fingerprint,
    {
        clone_opt(&self.inner.ext)
    }

    /// Caches the request fingerprint on this record.
    pub fn set_ext(&mut self, ext: Option<String>)
        ensures
            final(self)@ == (LoginState { fingerprint: opt_chars(ext), ..old(self)@ }),
    {
        self.inner.ext = ext;
    }

    /// The decision to be written to the outbound cookie.
    pub fn intent(&self) -> (r: Intent)
        ensures
            r@ == self@.intent,
    {
        match &self.inner.intent {
            Intent::Unset => Intent::Unset,
            Intent::LoggedIn(k) => Intent::LoggedIn(k.clone()),
            Intent::LoggedOut => Intent::LoggedOut,
        }
    }
}

impl Default for LoginInfo {
    fn default() -> (r: Self)
        ensures
            r@ == initial_state(),
    {
        LoginInfo::new()
    }
}

} // verus!
