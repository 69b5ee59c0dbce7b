//! The session cookie: finding it among the request's `Cookie` headers,
//! sealing the payload with authenticated encryption, and writing the
//! `Set-Cookie` directive.
use vstd::prelude::*;
use vstd::utf8::encode_utf8;
use crate::identity::{sha256, sha256_of};
use crate::login_info::{initial_state, login_spec, logout_spec, opt_chars, Intent, IntentModel, LoginState};
use crate::login_info::LoginInfo;
use crate::payload::{frame, frame_payload, lemma_payload_binding, lemma_payload_round_trip, user_for, user_for_payload};
use crate::text::{chars_of, same_chars, string_of, trim, trim_chars};

verus! {

/// The `SameSite` attribute of a cookie.
#[derive(Clone, Copy, PartialEq, Eq, Debug)]
pub enum SameSite {
    Strict,
    Lax,
    /// `SameSite=None`: the cookie is sent on cross-site requests too.
    Unrestricted,
}

/// The attributes written with the session cookie.
pub struct CookieAttributes {
    pub path: String,
    pub domain: Option<String>,
    pub secure: bool,
    pub http_only: bool,
    /// `Max-Age` in seconds; none makes a session cookie.
    pub max_age: Option<i64>,
    pub same_site: Option<SameSite>,
}

impl CookieAttributes {
    /// A copy of these attributes.
    pub fn copy(&self) -> (r: Self)
        ensures
            r == *self,
    {
        let path = self.path.clone();
        let domain = match &self.domain {
            Some(d) => Some(d.clone()),
            None => None,
        };
        CookieAttributes {
            path,
            domain,
            secure: self.secure,
            http_only: self.http_only,
            max_age: self.max_age,
            same_site: self.same_site,
        }
    }
}


/// The `Set-Cookie` text that the cookie library writes for a cookie with
/// this name, value and these attributes.
pub uninterp spec fn rendered_cookie(name: Seq<char>, value: Seq<char>, attrs: CookieAttributes) -> Seq<char>;

/// Relies on `cookie::Cookie` and its `encoded()` display: the `Set-Cookie`
/// header value for a cookie with these name, value and attributes.
#[verifier::external_body]
fn render_cookie(name: &str, value: &str, attrs: &CookieAttributes) -> (r: String)
    ensures
        r@ == rendered_cookie(name@, value@, *attrs),
{
    let mut c = cookie::Cookie::new(name.to_owned(), value.to_owned());
    c.set_path(attrs.path.clone());
    c.set_secure(attrs.secure);
    c.set_http_only(attrs.http_only);
    if let Some(d) = &attrs.domain {
        c.set_domain(d.clone());
    }
    c.set_max_age(attrs.max_age.map(time::Duration::seconds));
    c.set_same_site(attrs.same_site.map(|s| match s {
        SameSite::Strict => cookie::SameSite::Strict,
        SameSite::Lax => cookie::SameSite::Lax,
        SameSite::Unrestricted => cookie::SameSite::None,
    }));
    c.encoded().to_string()
}

/// The name and value that the cookie library reads out of `s`, with
/// percent-encoding undone, if `s` parses as a cookie.
pub uninterp spec fn parsed_cookie(s: Seq<char>) -> Option<(Seq<char>, Seq<char>)>;

/// Relies on `cookie::Cookie::parse_encoded`: the name and the decoded value
/// of the cookie written in `s`, or nothing when `s` does not parse.
#[verifier::external_body]
fn parse_cookie(s: &str) -> (r: Option<(String, String)>)
    ensures
        match r {
            Some((n, v)) => parsed_cookie(s@) == Some((n@, v@)),
            None => parsed_cookie(s@) is None,
        },
{
    cookie::Cookie::parse_encoded(s.to_owned()).ok().map(|c| (c.name().to_owned(), c.value().to_owned()))
}

/// The plaintext that authenticated decryption recovers from a sealed cookie
/// value, under the key derived from `master`, for a cookie named `name`.
pub uninterp spec fn unsealed(master: Seq<u8>, name: Seq<char>, value: Seq<char>) -> Option<Seq<char>>;

/// Relies on `cookie::Key::derive_from` and `cookie::PrivateJar::decrypt`:
/// verifies and decrypts a sealed value; nothing when it fails to
/// authenticate. `derive_from` panics on a master key under 32 bytes.
#[verifier::external_body]
fn unseal(master: &[u8], name: &str, value: &str) -> (r: Option<String>)
    requires
        master@.len() >= 32,
    ensures
        opt_chars(r) == unsealed(master@, name@, value@),
{
    let key = cookie::Key::derive_from(master);
    let jar = cookie::CookieJar::new();
    jar.private(&key).decrypt(cookie::Cookie::new(name.to_owned(), value.to_owned()))
        .map(|c| c.value().to_owned())
}

/// The largest cookie name and plaintext, in bytes, that are sealed; the
/// cipher refuses inputs of more than 2^36 bytes.
pub const MAX_SEALED_BYTES: usize = 0xFFFF_FFFF;

/// Whether a cookie with this name and plaintext can be sealed.
pub open spec fn sealable(name: Seq<char>, payload: Seq<char>) -> bool {
    encode_utf8(name).len() <= MAX_SEALED_BYTES && encode_utf8(payload).len() <= MAX_SEALED_BYTES
}

/// Relies on `cookie::Key::derive_from` and `cookie::PrivateJar::add`:
/// encrypts `value` under a fresh random nonce with the cookie's name as
/// associated data. The crate documents that decrypting a value it sealed,
/// with the same key and name, always succeeds and gives the plaintext back.
/// `add` panics when AES-GCM refuses its input (over 2^36 bytes) and when
/// the system's random source fails.
#[verifier::external_body]
fn seal(master: &[u8], name: &str, value: &str) -> (r: String)
    requires
        master@.len() >= 32,
        sealable(name@, value@),
    ensures
        unsealed(master@, name@, r@) == Some(value@),
{
    let key = cookie::Key::derive_from(master);
    let mut jar = cookie::CookieJar::new();
    jar.private_mut(&key).add(cookie::Cookie::new(name.to_owned(), value.to_owned()));
    jar.get(name).map(|c| c.value().to_owned()).unwrap_or_default()
}

/// Whether `p` is a prefix of `t`.
pub open spec fn has_prefix(t: Seq<char>, p: Seq<char>) -> bool {
    t.len() >= p.len() && t.subrange(0, p.len() as int) == p
}

/// One `;`-separated piece of a `Cookie` header: trimmed, it replaces the
/// cookie found so far when it starts with `prefix`.
pub open spec fn pick(found: Seq<char>, piece: Seq<char>, prefix: Seq<char>) -> Seq<char> {
    let t = trim(piece);
    if t.len() > 0 && has_prefix(t, prefix) {
        t
    } else {
        found
    }
}

/// Scans the rest `h` of a header, `cur` being the piece read so far.
pub open spec fn scan_header(found: Seq<char>, cur: Seq<char>, h: Seq<char>, prefix: Seq<char>) -> Seq<char>
    decreases h.len(),
{
    if h.len() == 0 {
        pick(found, cur, prefix)
    } else if h[0] == ';' {
        scan_header(pick(found, cur, prefix), Seq::empty(), h.drop_first(), prefix)
    } else {
        scan_header(found, cur.push(h[0]), h.drop_first(), prefix)
    }
}

/// Scans headers in order; the last matching piece wins.
pub open spec fn scan_headers(found: Seq<char>, hs: Seq<Seq<char>>, prefix: Seq<char>) -> Seq<char>
    decreases hs.len(),
{
    if hs.len() == 0 {
        found
    } else {
        scan_headers(scan_header(found, Seq::empty(), hs[0], prefix), hs.drop_first(), prefix)
    }
}

/// The characters of each header.
pub open spec fn header_chars(hs: Seq<String>) -> Seq<Seq<char>> {
    hs.map_values(|h: String| h@)
}

/// The `name=value` text of the last cookie called `name` in these
/// `Cookie` headers, or the empty text when there is none.
pub open spec fn find_cookie_spec(hs: Seq<String>, name: Seq<char>) -> Seq<char> {
    scan_headers(Seq::empty(), header_chars(hs), name + seq!['='])
}

/// The user key that the sealed value `value` of cookie `name` grants to a
/// request with fingerprint `fp`.
pub open spec fn open_spec(master: Seq<u8>, name: Seq<char>, value: Seq<char>, fp: Seq<char>) -> Option<Seq<char>> {
    match unsealed(master, name, value) {
        Some(p) => user_for(p, fp),
        None => None,
    }
}

/// The user key that the `Cookie` headers `hs` grant to a request with
/// fingerprint `fp`, for the session cookie `name` under `master`.
pub open spec fn decode_spec(master: Seq<u8>, name: Seq<char>, hs: Seq<String>, fp: Seq<char>) -> Option<Seq<char>> {
    let found = find_cookie_spec(hs, name);
    if found.len() == 0 {
        None
    } else {
        decode_found(master, name, found, fp)
    }
}

/// The user key that the cookie text `found` grants to a request with
/// fingerprint `fp`.
pub open spec fn decode_found(master: Seq<u8>, name: Seq<char>, found: Seq<char>, fp: Seq<char>) -> Option<Seq<char>> {
    match parsed_cookie(found) {
        Some((n, v)) => if n == name {
            open_spec(master, name, v, fp)
        } else {
            None
        },
        None => None,
    }
}

/// The user key an intent writes into the cookie.
pub open spec fn intent_user(i: IntentModel) -> Option<Seq<char>> {
    match i {
        IntentModel::LoggedIn(k) => Some(k),
        _ => None,
    }
}

/// Whether a cookie is written for `intent`: something was decided and
/// the payload can be sealed.
pub open spec fn writes_cookie(name: Seq<char>, intent: IntentModel, fp: Seq<char>) -> bool {
    !(intent is Unset) && sealable(name, frame(fp, intent_user(intent)))
}

/// Whether `value` is a sealed session for fingerprint `fp` and user `user`.
pub open spec fn sealed_for(master: Seq<u8>, name: Seq<char>, value: Seq<char>, fp: Seq<char>, user: Option<Seq<char>>) -> bool {
    unsealed(master, name, value) == Some(frame(fp, user))
}

/// An outbound session cookie, before it is written as a header.
pub struct SetCookie {
    pub name: String,
    pub value: String,
    pub attrs: CookieAttributes,
}

impl SetCookie {
    /// The `Set-Cookie` header value.
    pub fn to_header(&self) -> (r: String)
        ensures
            r@ == rendered_cookie(self.name@, self.value@, self.attrs),
    {
        render_cookie(self.name.as_str(), self.value.as_str(), &self.attrs)
    }
}

/// Stores the session in a cookie whose value is sealed with a key derived
/// from a secret.
pub struct CookieSession {
    master: Vec<u8>,
    name: String,
    attrs: CookieAttributes,
}

impl CookieSession {
    #[verifier::type_invariant]
    spec fn inv(&self) -> bool {
        self.master@.len() == 32
    }

    /// The master key the cookie keys are derived from.
    pub closed spec fn master_spec(&self) -> Seq<u8> {
        self.master@
    }

    /// The cookie's name.
    pub closed spec fn name_spec(&self) -> Seq<char> {
        self.name@
    }

    /// The attributes written with the cookie.
    pub closed spec fn attrs_spec(&self) -> CookieAttributes {
        self.attrs
    }

    /// A session cookie `_session` sealed under a key derived from the
    /// SHA-256 digest of `key`; `Path=/`, `Secure`, `HttpOnly`, no domain,
    /// no `Max-Age`, no `SameSite`.
    pub fn new(key: &str) -> (r: Self)
        ensures
            r.master_spec() == sha256_of(encode_utf8(key@)),
            r.name_spec() == "_session"@,
            r.attrs_spec().path@ == "/"@,
            r.attrs_spec().domain is None,
            r.attrs_spec().secure,
            r.attrs_spec().http_only,
            r.attrs_spec().max_age is None,
            r.attrs_spec().same_site is None,
    {
        let master = sha256(key.as_bytes());
        let name = string_of(&chars_of("_session"));
        let path = string_of(&chars_of("/"));
        CookieSession {
            master,
            name,
            attrs: CookieAttributes {
                path,
                domain: None,
                secure: true,
                http_only: true,
                max_age: None,
                same_site: None,
            },
        }
    }

    /// Sets the cookie's name.
    pub fn name(self, name: &str) -> (r: Self)
        ensures
            r.master_spec() == self.master_spec(),
            r.name_spec() == name@,
            r.attrs_spec() == self.attrs_spec(),
    {
        proof {
            use_type_invariant(&self);
        }
        CookieSession { name: string_of(&chars_of(name)), ..self }
    }

    /// Sets the cookie's `Path`.
    pub fn path(self, path: String) -> (r: Self)
        ensures
            r.master_spec() == self.master_spec(),
            r.name_spec() == self.name_spec(),
            r.attrs_spec() == (CookieAttributes { path, ..self.attrs_spec() }),
    {
        proof {
            use_type_invariant(&self);
        }
        CookieSession { attrs: CookieAttributes { path, ..self.attrs }, ..self }
    }

    /// Sets whether the cookie is `Secure`.
    pub fn secure(self, secure: bool) -> (r: Self)
        ensures
            r.master_spec() == self.master_spec(),
            r.name_spec() == self.name_spec(),
            r.attrs_spec() == (CookieAttributes { secure, ..self.attrs_spec() }),
    {
        proof {
            use_type_invariant(&self);
        }
        CookieSession { attrs: CookieAttributes { secure, ..self.attrs }, ..self }
    }

    /// Sets whether the cookie is `HttpOnly`.
    pub fn http_only(self, http_only: bool) -> (r: Self)
        ensures
            r.master_spec() == self.master_spec(),
            r.name_spec() == self.name_spec(),
            r.attrs_spec() == (CookieAttributes { http_only, ..self.attrs_spec() }),
    {
        proof {
            use_type_invariant(&self);
        }
        CookieSession { attrs: CookieAttributes { http_only, ..self.attrs }, ..self }
    }

    /// Sets the cookie's `Domain`.
    pub fn domain(self, domain: Option<String>) -> (r: Self)
        ensures
            r.master_spec() == self.master_spec(),
            r.name_spec() == self.name_spec(),
            r.attrs_spec() == (CookieAttributes { domain, ..self.attrs_spec() }),
    {
        proof {
            use_type_invariant(&self);
        }
        CookieSession { attrs: CookieAttributes { domain, ..self.attrs }, ..self }
    }

    /// Sets the cookie's `Max-Age`, in seconds.
    pub fn duration(self, max_age: Option<i64>) -> (r: Self)
        ensures
            r.master_spec() == self.master_spec(),
            r.name_spec() == self.name_spec(),
            r.attrs_spec() == (CookieAttributes { max_age, ..self.attrs_spec() }),
    {
        proof {
            use_type_invariant(&self);
        }
        CookieSession { attrs: CookieAttributes { max_age, ..self.attrs }, ..self }
    }

    /// Sets the cookie's `SameSite` attribute.
    pub fn same_site(self, same_site: Option<SameSite>) -> (r: Self)
        ensures
            r.master_spec() == self.master_spec(),
            r.name_spec() == self.name_spec(),
            r.attrs_spec() == (CookieAttributes { same_site, ..self.attrs_spec() }),
    {
        proof {
            use_type_invariant(&self);
        }
        CookieSession { attrs: CookieAttributes { same_site, ..self.attrs }, ..self }
    }
    /// The `name=value` text of the last session cookie among `headers`,
    /// the values of the request's `Cookie` headers, in order; the empty
    /// text when there is none.
    pub fn find_cookie(&self, headers: &Vec<String>) -> (r: String)
        ensures
            r@ == find_cookie_spec(headers@, self.name_spec()),
    {
        let mut prefix = chars_of(self.name.as_str());
        prefix.push('=');
        let mut found: Vec<char> = Vec::new();
        let ghost hs = header_chars(headers@);
        let nh = headers.len();
        let mut hi: usize = 0;
        assert(hs.subrange(0, nh as int) =~= hs);
        while hi < nh
            invariant
                prefix@ == self.name_spec() + seq!['='],
                hs == header_chars(headers@),
                nh == headers@.len() == hs.len(),
                0 <= hi <= nh,
                scan_headers(Seq::empty(), hs, prefix@) == scan_headers(
                    found@,
                    hs.subrange(hi as int, nh as int),
                    prefix@,
                ),
            decreases nh - hi,
        {
            let h = chars_of(headers[hi].as_str());
            assert(h@ == hs[hi as int]);
            let ghost found0 = found@;
            let n = h.len();
            let mut cur: Vec<char> = Vec::new();
            let mut j: usize = 0;
            assert(h@.subrange(0, n as int) =~= h@);
            while j < n
                invariant
                    n == h@.len(),
                    0 <= j <= n,
                    scan_header(found0, Seq::empty(), h@, prefix@) == scan_header(
                        found@,
                        cur@,
                        h@.subrange(j as int, n as int),
                        prefix@,
                    ),
                decreases n - j,
            {
                assert(h@.subrange(j as int, n as int).drop_first() =~= h@.subrange(j + 1, n as int));
                if h[j] == ';' {
                    found = pick_piece(found, &cur, &prefix);
                    cur = Vec::new();
                } else {
                    cur.push(h[j]);
                }
                j = j + 1;
            }
            found = pick_piece(found, &cur, &prefix);
            assert(hs.subrange(hi as int, nh as int).drop_first() =~= hs.subrange(hi + 1, nh as int));
            hi = hi + 1;
        }
        string_of(&found)
    }

    /// The user key that the session cookie among `headers` grants to a
    /// request with fingerprint `fingerprint`. A missing, malformed, forged
    /// or foreign cookie grants nothing.
    pub fn decode(&self, headers: &Vec<String>, fingerprint: &str) -> (r: Option<String>)
        ensures
            opt_chars(r) == decode_spec(self.master_spec(), self.name_spec(), headers@, fingerprint@),
    {
        let found = self.find_cookie(headers);
        if found.as_str().is_empty() {
            return None;
        }
        match parse_cookie(found.as_str()) {
            Some((n, v)) => {
                if same_chars(n.as_str(), self.name.as_str()) {
                    self.open_value(v.as_str(), fingerprint)
                } else {
                    None
                }
            },
            None => None,
        }
    }

    /// The user key that the sealed cookie value `value` grants to a
    /// request with fingerprint `fingerprint`.
    pub fn open_value(&self, value: &str, fingerprint: &str) -> (r: Option<String>)
        ensures
            opt_chars(r) == open_spec(self.master_spec(), self.name_spec(), value@, fingerprint@),
    {
        proof {
            use_type_invariant(self);
        }
        match unseal(self.master.as_slice(), self.name.as_str(), value) {
            Some(p) => user_for_payload(p.as_str(), fingerprint),
            None => None,
        }
    }

    /// The session cookie that writes `intent` for a request with
    /// fingerprint `fingerprint`: none when nothing was decided (or when
    /// the payload is too large to seal), else a cookie whose value is sealed
    /// and carries the fingerprint and, after a login, the user key.
    pub fn encode(&self, intent: &Intent, fingerprint: &str) -> (r: Option<SetCookie>)
        ensures
            r is Some <==> writes_cookie(self.name_spec(), intent@, fingerprint@),
            match r {
                Some(c) => {
                    &&& c.name@ == self.name_spec()
                    &&& c.attrs == self.attrs_spec()
                    &&& sealed_for(
                        self.master_spec(),
                        self.name_spec(),
                        c.value@,
                        fingerprint@,
                        intent_user(intent@),
                    )
                },
                None => true,
            },
    {
        proof {
            use_type_invariant(self);
        }
        let user: Option<String> = match intent {
            Intent::Unset => {
                return None;
            },
            Intent::LoggedIn(k) => Some(k.clone()),
            Intent::LoggedOut => None,
        };
        let payload = frame_payload(fingerprint, &user);
        if self.name.as_str().as_bytes().len() > MAX_SEALED_BYTES
            || payload.as_str().as_bytes().len() > MAX_SEALED_BYTES {
            return None;
        }
        let value = seal(self.master.as_slice(), self.name.as_str(), payload.as_str());
        Some(SetCookie { name: self.name.clone(), value, attrs: self.attrs.copy() })
    }

    /// The `Set-Cookie` header value that writes the decision recorded in
    /// `info`, for a request with fingerprint `fingerprint`; none when
    /// nothing was decided.
    pub fn update(&self, info: &LoginInfo, fingerprint: &str) -> (r: Option<String>)
        ensures
            r is Some <==> writes_cookie(self.name_spec(), info@.intent, fingerprint@),
            match r {
                Some(h) => exists|v: Seq<char>|
                    h@ == rendered_cookie(self.name_spec(), v, self.attrs_spec()) && sealed_for(
                        self.master_spec(),
                        self.name_spec(),
                        v,
                        fingerprint@,
                        intent_user(info@.intent),
                    ),
                None => true,
            },
    {
        let intent = info.intent();
        match self.encode(&intent, fingerprint) {
            Some(c) => Some(c.to_header()),
            None => None,
        }
    }
}

fn starts_with(t: &Vec<char>, p: &Vec<char>) -> (r: bool)
    ensures
        r == has_prefix(t@, p@),
{
    if t.len() < p.len() {
        return false;
    }
    let mut i: usize = 0;
    while i < p.len()
        invariant
            0 <= i <= p@.len() <= t@.len(),
            forall|j: int| 0 <= j < i ==> t@[j] == p@[j],
        decreases p@.len() - i,
    {
        if t[i] != p[i] {
            assert(t@.subrange(0, p@.len() as int)[i as int] != p@[i as int]);
            return false;
        }
        i = i + 1;
    }
    assert(t@.subrange(0, p@.len() as int) =~= p@);
    true
}

fn pick_piece(found: Vec<char>, piece: &Vec<char>, prefix: &Vec<char>) -> (r: Vec<char>)
    ensures
        r@ == pick(found@, piece@, prefix@),
{
    let t = trim_chars(piece);
    if t.len() > 0 && starts_with(&t, prefix) {
        t
    } else {
        found
    }
}

/// Round trip: a cookie value sealed for fingerprint `fp` and user `user`
/// opens, for a request with fingerprint `fp`, to exactly `user`: the user
/// key after a login, nothing after a logout.
pub proof fn lemma_round_trip(
    master: Seq<u8>,
    name: Seq<char>,
    value: Seq<char>,
    fp: Seq<char>,
    user: Option<Seq<char>>,
)
    requires
        sealed_for(master, name, value, fp, user),
    ensures
        open_spec(master, name, value, fp) == user,
{
    lemma_payload_round_trip(fp, user);
}

/// Last write wins: after `login(a)`, `logout()` and `login(b)` in one
/// request, the decision is a login of `b`, and a cookie value is sealed for
/// it exactly when it is sealed for a request that only called `login(b)`.
pub proof fn lemma_last_write_wins(
    s: LoginState,
    a: Seq<char>,
    b: Seq<char>,
    master: Seq<u8>,
    name: Seq<char>,
    value: Seq<char>,
    fp: Seq<char>,
)
    ensures
        login_spec(logout_spec(login_spec(s, a)), b).intent == IntentModel::LoggedIn(b),
        login_spec(logout_spec(login_spec(s, a)), b).intent == login_spec(initial_state(), b).intent,
        sealed_for(master, name, value, fp, intent_user(login_spec(logout_spec(login_spec(s, a)), b).intent))
            == sealed_for(master, name, value, fp, intent_user(login_spec(initial_state(), b).intent)),
{
}

/// A request without any `Cookie` header carries no session.
pub proof fn lemma_no_cookie(master: Seq<u8>, name: Seq<char>, fp: Seq<char>)
    ensures
        decode_spec(master, name, Seq::empty(), fp) is None,
{
    assert(header_chars(Seq::<String>::empty()) =~= Seq::<Seq<char>>::empty());
}

/// Fingerprint binding: a cookie value sealed for fingerprint `f1` opens to
/// nothing for a request whose fingerprint `f2` differs.
pub proof fn lemma_fingerprint_binding(
    master: Seq<u8>,
    name: Seq<char>,
    value: Seq<char>,
    f1: Seq<char>,
    f2: Seq<char>,
    user: Option<Seq<char>>,
)
    requires
        sealed_for(master, name, value, f1, user),
        f1 != f2,
    ensures
        open_spec(master, name, value, f2) is None,
{
    lemma_payload_binding(f1, f2, user);
}

} // verus!
