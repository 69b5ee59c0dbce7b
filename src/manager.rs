//! The middleware's configuration and the redirect it applies to
//! unauthenticated responses.
use vstd::prelude::*;
use crate::cookie_session::{decode_spec, intent_user, rendered_cookie, sealed_for, writes_cookie, CookieSession};
use crate::identity::{fingerprint, fingerprint_spec, HeaderText};
use crate::login_info::{opt_chars, IntentModel, LoginInfo, LoginState};
use crate::text::{chars_of, push_str, string_of};
use vstd::utf8::encode_utf8;

verus! {

/// Whether `urlencoding` leaves byte `b` as it is: ASCII letters, digits
/// and `-`, `.`, `_`, `~`.
pub open spec fn is_unreserved(b: u8) -> bool {
    (48 <= b <= 57) || (65 <= b <= 90) || (97 <= b <= 122) || b == 45 || b == 46 || b == 95
        || b == 126
}

/// The upper-case hex digit of `d < 16`.
pub open spec fn hex_upper(d: u8) -> char {
    if d < 10 {
        ((48 + d) as u8) as char
    } else {
        ((55 + d) as u8) as char
    }
}

/// The percent-encoding of one byte.
pub open spec fn pct_byte(b: u8) -> Seq<char> {
    if is_unreserved(b) {
        seq![b as char]
    } else {
        seq!['%', hex_upper(b / 16), hex_upper(b % 16)]
    }
}

/// The percent-encoding of a byte string.
pub open spec fn pct_encode(b: Seq<u8>) -> Seq<char>
    decreases b.len(),
{
    if b.len() == 0 {
        Seq::empty()
    } else {
        pct_byte(b[0]) + pct_encode(b.drop_first())
    }
}

/// Relies on `urlencoding::encode_binary`: each byte but ASCII letters,
/// digits and `-._~` becomes `%` followed by two upper-case hex digits.
#[verifier::external_body]
fn url_encode(data: &[u8]) -> (r: String)
    ensures
        r@ == pct_encode(data@),
{
    urlencoding::encode_binary(data).into_owned()
}

/// The redirect target for a request whose target was `uri`:
/// `<login_view>?<next_key>=<percent-encoded uri>`.
pub open spec fn next_to_spec(login_view: Seq<char>, next_key: Seq<char>, uri: Seq<char>) -> Seq<
    char,
> {
    login_view + seq!['?'] + next_key + seq!['='] + pct_encode(encode_utf8(uri))
}

/// Configuration of the login middleware around a session decoder `D`.
pub struct LoginManager<D> {
    decoder: D,
    login_view: String,
    next_key: String,
    redirect: bool,
}

impl<D> LoginManager<D> {
    /// The decoder this manager was built with.
    pub closed spec fn decoder_spec(&self) -> D {
        self.decoder
    }

    /// The path of the login view.
    pub closed spec fn login_view_spec(&self) -> Seq<char> {
        self.login_view@
    }

    /// The name of the query parameter that carries the requested target.
    pub closed spec fn next_key_spec(&self) -> Seq<char> {
        self.next_key@
    }

    /// Whether unauthenticated responses become redirects.
    pub closed spec fn redirect_spec(&self) -> bool {
        self.redirect
    }

    /// A manager with the defaults: login view `/login`, query key `next`,
    /// redirect on.
    pub fn new(decoder: D) -> (r: Self)
        ensures
            r.decoder_spec() == decoder,
            r.login_view_spec() == seq!['/', 'l', 'o', 'g', 'i', 'n'],
            r.next_key_spec() == seq!['n', 'e', 'x', 't'],
            r.redirect_spec(),
    {
        let login_view = string_of(&chars_of("/login"));
        let next_key = string_of(&chars_of("next"));
        proof {
            reveal_strlit("/login");
            reveal_strlit("next");
        }
        LoginManager { decoder, login_view, next_key, redirect: true }
    }

    /// Sets whether an unauthenticated response becomes a redirect.
    pub fn redirect(self, redirect: bool) -> (r: Self)
        ensures
            r.decoder_spec() == self.decoder_spec(),
            r.login_view_spec() == self.login_view_spec(),
            r.next_key_spec() == self.next_key_spec(),
            r.redirect_spec() == redirect,
    {
        LoginManager { redirect, ..self }
    }

    /// Sets the path of the login view.
    pub fn login_view(self, login_view: String) -> (r: Self)
        ensures
            r.decoder_spec() == self.decoder_spec(),
            r.login_view_spec() == login_view@,
            r.next_key_spec() == self.next_key_spec(),
            r.redirect_spec() == self.redirect_spec(),
    {
        LoginManager { login_view, ..self }
    }

    /// Sets the name of the query parameter that carries the requested target.
    pub fn next_key(self, next_key: String) -> (r: Self)
        ensures
            r.decoder_spec() == self.decoder_spec(),
            r.login_view_spec() == self.login_view_spec(),
            r.next_key_spec() == next_key@,
            r.redirect_spec() == self.redirect_spec(),
    {
        LoginManager { next_key, ..self }
    }

    /// The decoder this manager was built with.
    pub fn decoder(&self) -> (r: &D)
        ensures
            *r == self.decoder_spec(),
    {
        &self.decoder
    }

    /// Whether unauthenticated responses become redirects.
    pub fn is_redirect(&self) -> (r: bool)
        ensures
            r == self.redirect_spec(),
    {
        self.redirect
    }

    /// The redirect target that sends the client to the login view and
    /// back to `uri` afterwards.
    pub fn next_to(&self, uri: &str) -> (r: String)
        ensures
            r@ == next_to_spec(self.login_view_spec(), self.next_key_spec(), uri@),
    {
        let enc = url_encode(uri.as_bytes());
        let mut v = chars_of(self.login_view.as_str());
        v.push('?');
        push_str(&mut v, self.next_key.as_str());
        v.push('=');
        push_str(&mut v, enc.as_str());
        string_of(&v)
    }
}

/// What the middleware does to a handler's response.
pub struct ResponsePlan {
    /// The status of the response sent to the client.
    pub status: u16,
    /// The `Location` of the redirect that replaces the response, if any.
    pub location: Option<String>,
    /// The `Set-Cookie` header to append, if the session changed.
    pub set_cookie: Option<String>,
}

/// The status of a redirect to the login view (See Other).
pub const REDIRECT_STATUS: u16 = 303;

/// The status by which a handler reports an unauthenticated request.
pub const UNAUTHORIZED_STATUS: u16 = 401;

/// The fingerprint used when the session is written back: the one cached
/// on the login record, else the one of the request's headers.
pub open spec fn fingerprint_used(s: LoginState, agent: HeaderText, host: HeaderText) -> Seq<char> {
    match s.fingerprint {
        Some(f) => f,
        None => fingerprint_spec(agent, host),
    }
}

/// Whether a response with `status` is replaced by a redirect.
pub open spec fn redirects(redirect: bool, status: u16) -> bool {
    redirect && status == UNAUTHORIZED_STATUS
}

impl LoginManager<CookieSession> {
    /// Before the handler: the login record of a request with these
    /// `Cookie` headers, `User-Agent` and `Host`. The user key comes from
    /// the session cookie, bound to the request's fingerprint, which is
    /// cached on the record.
    pub fn begin(&self, cookie_headers: &Vec<String>, agent: &HeaderText, host: &HeaderText) -> (r:
        LoginInfo)
        ensures
            r@ == (LoginState {
                recovered: decode_spec(
                    self.decoder_spec().master_spec(),
                    self.decoder_spec().name_spec(),
                    cookie_headers@,
                    fingerprint_spec(*agent, *host),
                ),
                intent: IntentModel::Unset,
                fingerprint: Some(fingerprint_spec(*agent, *host)),
            }),
    {
        let fp = fingerprint(agent, host);
        self.begin_with(cookie_headers, fp)
    }

    /// Before the handler: the login record of a request with these
    /// `Cookie` headers and fingerprint `fp`, which is cached on the record.
    pub fn begin_with(&self, cookie_headers: &Vec<String>, fp: String) -> (r: LoginInfo)
        ensures
            r@ == (LoginState {
                recovered: decode_spec(
                    self.decoder_spec().master_spec(),
                    self.decoder_spec().name_spec(),
                    cookie_headers@,
                    fp@,
                ),
                intent: IntentModel::Unset,
                fingerprint: Some(fp@),
            }),
    {
        let key = self.decoder.decode(cookie_headers, fp.as_str());
        let mut info = LoginInfo::new();
        info.set_key(key);
        info.set_ext(Some(fp));
        info
    }

    /// After the handler: writes the decision recorded in `info` back as a
    /// session cookie, and turns a 401 response into a redirect to the login
    /// view when redirects are on. `target` is the path and query of the
    /// request. The cookie is kept on the redirect.
    pub fn finish(
        &self,
        info: &LoginInfo,
        agent: &HeaderText,
        host: &HeaderText,
        status: u16,
        target: Option<&str>,
    ) -> (r: ResponsePlan)
        ensures
            r.status == (if redirects(self.redirect_spec(), status) {
                REDIRECT_STATUS
            } else {
                status
            }),
            opt_chars(r.location) == (if redirects(self.redirect_spec(), status) {
                Some(
                    next_to_spec(
                        self.login_view_spec(),
                        self.next_key_spec(),
                        match target {
                            Some(t) => t@,
                            None => seq!['/'],
                        },
                    ),
                )
            } else {
                None
            }),
            r.set_cookie is Some <==> writes_cookie(
                self.decoder_spec().name_spec(),
                info@.intent,
                fingerprint_used(info@, *agent, *host),
            ),
            match r.set_cookie {
                Some(h) => exists|v: Seq<char>|
                    h@ == rendered_cookie(
                        self.decoder_spec().name_spec(),
                        v,
                        self.decoder_spec().attrs_spec(),
                    ) && sealed_for(
                        self.decoder_spec().master_spec(),
                        self.decoder_spec().name_spec(),
                        v,
                        fingerprint_used(info@, *agent, *host),
                        intent_user(info@.intent),
                    ),
                None => true,
            },
    {
        let fp = match info.ext() {
            Some(f) => f,
            None => fingerprint(agent, host),
        };
        let set_cookie = self.decoder.update(info, fp.as_str());
        if self.redirect && status == UNAUTHORIZED_STATUS {
            let location = match target {
                Some(t) => self.next_to(t),
                None => {
                    let root = string_of(&chars_of("/"));
                    proof {
                        reveal_strlit("/");
                    }
                    assert(root@ =~= seq!['/']);
                    self.next_to(root.as_str())
                },
            };
            ResponsePlan { status: REDIRECT_STATUS, location: Some(location), set_cookie }
        } else {
            ResponsePlan { status, location: None, set_cookie }
        }
    }
}

/// The login middleware around an inner service `S`.
pub struct LoginManagerMiddleware<S, D> {
    serv: S,
    manager: LoginManager<D>,
}

impl<S, D> LoginManagerMiddleware<S, D> {
    /// The inner service.
    pub closed spec fn service_spec(&self) -> S {
        self.serv
    }

    /// The manager's configuration.
    pub closed spec fn manager_spec(&self) -> LoginManager<D> {
        self.manager
    }

    /// Wraps `serv` with the login middleware configured by `manager`.
    pub fn new(serv: S, manager: LoginManager<D>) -> (r: Self)
        ensures
            r.service_spec() == serv,
            r.manager_spec() == manager,
    {
        LoginManagerMiddleware { serv, manager }
    }

    /// The manager's configuration.
    pub fn loginmanger(&self) -> (r: &LoginManager<D>)
        ensures
            *r == self.manager_spec(),
    {
        &self.manager
    }

    /// The inner service.
    pub fn service(&self) -> (r: &S)
        ensures
            *r == self.service_spec(),
    {
        &self.serv
    }
}

} // verus!
