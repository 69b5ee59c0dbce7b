use sha2::Digest;
use loginmanager::cookie_session::SetCookie;
use loginmanager::{CookieSession, HeaderText, Intent, SameSite};

const SECRET: &str = "a secret of at least thirty-two bytes, for tests";

fn sent_back(c: &SetCookie) -> Vec<String> {
    vec![format!("{}={}", c.name, c.value)]
}

fn login_cookie(cs: &CookieSession, key: &str, fp: &str) -> SetCookie {
    cs.encode(&Intent::LoggedIn(key.to_string()), fp).expect("a login writes a cookie")
}

#[test]
fn round_trip_login() {
    let cs = CookieSession::new(SECRET);
    let c = login_cookie(&cs, "42", "fp-1");
    assert_eq!(cs.decode(&sent_back(&c), "fp-1"), Some("42".to_string()));
    assert_eq!(cs.open_value(&c.value, "fp-1"), Some("42".to_string()));
}

#[test]
fn round_trip_logout() {
    let cs = CookieSession::new(SECRET);
    let c = cs.encode(&Intent::LoggedOut, "fp-1").expect("a logout writes a cookie");
    assert_eq!(c.name, "_session");
    assert_eq!(cs.decode(&sent_back(&c), "fp-1"), None);
}

#[test]
fn unset_writes_nothing() {
    let cs = CookieSession::new(SECRET);
    assert!(cs.encode(&Intent::Unset, "fp-1").is_none());
}

#[test]
fn round_trip_key_with_separators() {
    let cs = CookieSession::new(SECRET);
    let fp = "a:b\\c";
    let c = login_cookie(&cs, "\"user:7\"", fp);
    assert_eq!(cs.decode(&sent_back(&c), fp), Some("\"user:7\"".to_string()));
}

#[test]
fn fingerprint_binding() {
    let cs = CookieSession::new(SECRET);
    let c = login_cookie(&cs, "42", "fp-1");
    assert_eq!(cs.decode(&sent_back(&c), "fp-2"), None);
    assert_eq!(cs.decode(&sent_back(&c), "fp-"), None);
    assert_eq!(cs.decode(&sent_back(&c), "fp-11"), None);
}

#[test]
fn tampered_value_is_rejected() {
    let cs = CookieSession::new(SECRET);
    let c = login_cookie(&cs, "42", "fp-1");
    let bytes = c.value.as_bytes().to_vec();
    for i in 0..bytes.len() {
        let mut t = bytes.clone();
        t[i] ^= 1;
        let value = String::from_utf8(t).unwrap();
        assert_eq!(cs.open_value(&value, "fp-1"), None, "byte {}", i);
        let header = vec![format!("_session={}", value)];
        assert_eq!(cs.decode(&header, "fp-1"), None, "byte {}", i);
    }
}

#[test]
fn sealed_value_hides_the_payload() {
    let cs = CookieSession::new(SECRET);
    let c = login_cookie(&cs, "user-42", "fp-1");
    assert!(!c.value.contains("user-42"));
    assert!(!c.value.contains("fp-1"));
}

#[test]
fn other_secret_is_rejected() {
    let cs = CookieSession::new(SECRET);
    let other = CookieSession::new("another secret of thirty-two bytes or more");
    let c = login_cookie(&cs, "42", "fp-1");
    assert_eq!(other.decode(&sent_back(&c), "fp-1"), None);
}

#[test]
fn cookie_name_is_bound() {
    let cs = CookieSession::new(SECRET);
    let renamed = CookieSession::new(SECRET).name("other");
    let c = login_cookie(&cs, "42", "fp-1");
    let swapped = vec![format!("other={}", c.value)];
    assert_eq!(renamed.decode(&swapped, "fp-1"), None);
}

#[test]
fn missing_and_malformed_cookies() {
    let cs = CookieSession::new(SECRET);
    assert_eq!(cs.decode(&vec![], "fp-1"), None);
    assert_eq!(cs.decode(&vec!["other=1".to_string()], "fp-1"), None);
    assert_eq!(cs.decode(&vec!["_session=garbage".to_string()], "fp-1"), None);
    assert_eq!(cs.decode(&vec!["_session=".to_string()], "fp-1"), None);
}

#[test]
fn find_cookie_takes_last_match() {
    let cs = CookieSession::new(SECRET);
    let headers = vec![
        "a=1; _session=first".to_string(),
        "b=2;  _session=second ;c=3".to_string(),
        "_sessionx=4; d=5".to_string(),
    ];
    assert_eq!(cs.find_cookie(&headers), "_session=second");
    assert_eq!(cs.find_cookie(&vec!["a=1; b=2".to_string()]), "");
    assert_eq!(cs.find_cookie(&vec![]), "");
}

#[test]
fn find_cookie_trims_tabs() {
    let cs = CookieSession::new(SECRET);
    assert_eq!(cs.find_cookie(&vec!["x=1;\t_session=v\t".to_string()]), "_session=v");
}

#[test]
fn cookie_among_others_decodes() {
    let cs = CookieSession::new(SECRET);
    let c = login_cookie(&cs, "42", "fp-1");
    let headers = vec!["theme=dark".to_string(), format!("lang=en; _session={}; x=y", c.value)];
    assert_eq!(cs.decode(&headers, "fp-1"), Some("42".to_string()));
}

#[test]
fn default_attributes() {
    let cs = CookieSession::new(SECRET);
    let c = login_cookie(&cs, "42", "fp-1");
    let h = c.to_header();
    assert!(h.starts_with("_session="));
    assert!(h.contains("Path=/"));
    assert!(h.contains("Secure"));
    assert!(h.contains("HttpOnly"));
    assert!(!h.contains("Max-Age"));
    assert!(!h.contains("Domain"));
    assert!(!h.contains("SameSite"));
}

#[test]
fn configured_attributes() {
    let cs = CookieSession::new(SECRET)
        .name("sid")
        .path("/app".to_string())
        .secure(false)
        .http_only(false)
        .domain(Some("example.com".to_string()))
        .duration(Some(60))
        .same_site(Some(SameSite::Lax));
    let c = login_cookie(&cs, "42", "fp-1");
    assert_eq!(c.name, "sid");
    let h = c.to_header();
    assert!(h.starts_with("sid="));
    assert!(h.contains("Path=/app"));
    assert!(h.contains("Domain=example.com"));
    assert!(h.contains("Max-Age=60"));
    assert!(h.contains("SameSite=Lax"));
    assert!(!h.contains("Secure"));
    assert!(!h.contains("HttpOnly"));
    assert_eq!(cs.decode(&vec![format!("sid={}", c.value)], "fp-1"), Some("42".to_string()));
}

#[test]
fn same_site_variants() {
    let strict = CookieSession::new(SECRET).same_site(Some(SameSite::Strict));
    let h = login_cookie(&strict, "1", "f").to_header();
    assert!(h.contains("SameSite=Strict"));
    let none = CookieSession::new(SECRET).same_site(Some(SameSite::Unrestricted));
    let h = login_cookie(&none, "1", "f").to_header();
    assert!(h.contains("SameSite=None"));
}

#[test]
fn update_writes_the_header() {
    let cs = CookieSession::new(SECRET);
    let mut info = loginmanager::LoginInfo::new();
    assert_eq!(cs.update(&info, "fp-1"), None);
    info.login("7".to_string());
    let h = cs.update(&info, "fp-1").expect("a login writes a header");
    let pair = h.split(';').next().unwrap().to_string();
    assert_eq!(cs.decode(&vec![pair], "fp-1"), Some("7".to_string()));
}

#[test]
fn header_fingerprint_value() {
    let agent = HeaderText::Text("curl/8.0".to_string());
    let host = HeaderText::Text("example.com".to_string());
    let fp = loginmanager::identity::fingerprint(&agent, &host);
    let expected = hex::encode(sha2::Sha256::digest(b"loginmanagercurl/8.0example.com"));
    assert_eq!(fp, expected);
    assert_eq!(fp.len(), 64);
}

#[test]
fn header_fingerprint_stand_ins() {
    let fp = loginmanager::identity::fingerprint(&HeaderText::Invalid, &HeaderText::Missing);
    assert_eq!(fp, hex::encode(sha2::Sha256::digest(b"loginmanageragent-fake")));
    let fp = loginmanager::identity::fingerprint(&HeaderText::Missing, &HeaderText::Invalid);
    assert_eq!(fp, hex::encode(sha2::Sha256::digest(b"loginmanagerhost-fake")));
    let fp = loginmanager::identity::fingerprint(&HeaderText::Missing, &HeaderText::Missing);
    assert_eq!(fp, hex::encode(sha2::Sha256::digest(b"loginmanager")));
}

#[test]
fn remote_fingerprint_value() {
    let fp = loginmanager::identity::remote_fingerprint(
        &Some("127.0.0.1:8080".to_string()),
        &HeaderText::Text("ua".to_string()),
    );
    assert_eq!(fp, hex::encode(sha2::Sha256::digest(b"127.0.0.1ua")));
    let fp = loginmanager::identity::remote_fingerprint(&None, &HeaderText::Invalid);
    assert_eq!(fp, hex::encode(sha2::Sha256::digest(b"")));
}
