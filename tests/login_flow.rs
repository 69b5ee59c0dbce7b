use loginmanager::extractors::{auth_user, auth_user_opt, current_user, Lookup};
use loginmanager::payload::{frame_payload, unframe_payload, user_for_payload};
use loginmanager::{
    AuthContext, AuthUser, CookieSession, CurrentUser, HeaderText, Intent, LoginInfo,
    LoginManager, Rejection, UserSlot,
};

const SECRET: &str = "a secret of at least thirty-two bytes, for tests";

fn agent() -> HeaderText {
    HeaderText::Text("test-agent".to_string())
}

fn host() -> HeaderText {
    HeaderText::Text("localhost:3000".to_string())
}

fn manager() -> LoginManager<CookieSession> {
    LoginManager::new(CookieSession::new(SECRET))
}

#[derive(Debug, Clone, PartialEq)]
struct User {
    id: i32,
}

#[test]
fn last_write_wins() {
    let mut info = LoginInfo::new();
    info.login("a".to_string());
    info.logout();
    info.login("b".to_string());
    assert!(info.is_login());
    assert!(!info.is_logout());
    assert_eq!(info.login_key(), Some("b".to_string()));
    assert!(matches!(info.intent(), Intent::LoggedIn(k) if k == "b"));

    let mut pure = LoginInfo::new();
    pure.login("b".to_string());
    let m = manager();
    let cs = m.decoder();
    let a = cs.encode(&info.intent(), "fp").unwrap();
    let b = cs.encode(&pure.intent(), "fp").unwrap();
    assert_eq!(a.name, b.name);
    assert_eq!(cs.open_value(&a.value, "fp"), cs.open_value(&b.value, "fp"));
    assert_eq!(cs.open_value(&a.value, "fp"), Some("b".to_string()));
}

#[test]
fn logout_after_login_wins() {
    let mut info = LoginInfo::new();
    info.set_key(Some("1".to_string()));
    info.login("a".to_string());
    info.logout();
    assert!(info.is_logout());
    assert!(!info.is_login());
    assert_eq!(info.login_key(), None);
    assert_eq!(info.get_key(), None);
}

#[test]
fn fresh_record() {
    let info = LoginInfo::default();
    assert!(!info.is_login());
    assert!(!info.is_logout());
    assert_eq!(info.get_key(), None);
    assert_eq!(info.ext(), None);
    let mut info = info;
    info.set_ext(Some("fp".to_string()));
    assert_eq!(info.ext(), Some("fp".to_string()));
}

#[test]
fn auth_context_records_decisions() {
    let mut ctx = AuthContext(LoginInfo::new());
    ctx.login("9".to_string());
    assert_eq!(ctx.0.login_key(), Some("9".to_string()));
    ctx.logout();
    assert!(ctx.0.is_logout());
}

#[test]
fn at_most_one_lookup() {
    let mut info = LoginInfo::new();
    info.set_key(Some("5".to_string()));
    let mut slot: UserSlot<User> = UserSlot::new();
    let mut calls = 0;
    for answer in [User { id: 5 }, User { id: 6 }] {
        match slot.next_step(&info) {
            Lookup::Resolve(k) => {
                assert_eq!(k, "5");
                calls += 1;
                slot.store(Some(answer));
            }
            Lookup::Cached => {}
            Lookup::Anonymous => panic!("a key was recovered"),
        }
    }
    assert_eq!(calls, 1);
    assert_eq!(slot.user(), Some(&User { id: 5 }));
    slot.store(Some(User { id: 7 }));
    assert_eq!(slot.user(), Some(&User { id: 5 }));
}

#[test]
fn not_found_is_cached() {
    let mut info = LoginInfo::new();
    info.set_key(Some("5".to_string()));
    let mut slot: UserSlot<User> = UserSlot::new();
    assert!(matches!(slot.next_step(&info), Lookup::Resolve(_)));
    slot.store(None);
    assert!(matches!(slot.next_step(&info), Lookup::Cached));
    slot.store(Some(User { id: 5 }));
    assert_eq!(slot.user(), None);
}

#[test]
fn unauthenticated_default() {
    let m = manager();
    let info = m.begin(&vec![], &agent(), &host());
    assert_eq!(info.get_key(), None);
    let slot: UserSlot<User> = UserSlot::new();
    assert!(matches!(slot.next_step(&info), Lookup::Anonymous));
    assert!(matches!(current_user(slot.user().cloned()), Err(Rejection::Unauthorized)));
}

#[test]
fn accessor_outcomes() {
    let u = User { id: 1 };
    assert!(matches!(current_user(Some(u.clone())), Ok(CurrentUser(v)) if v.id == 1));
    assert!(matches!(current_user::<User>(None), Err(Rejection::Unauthorized)));
    assert!(matches!(auth_user(Some(u.clone()), true, true), Ok(AuthUser(v)) if v.id == 1));
    assert!(matches!(auth_user(Some(u.clone()), false, true), Err(Rejection::Unauthorized)));
    assert!(matches!(auth_user(Some(u.clone()), true, false), Err(Rejection::Unauthorized)));
    assert!(matches!(auth_user::<User>(None, true, true), Err(Rejection::Unauthorized)));
    assert!(matches!(auth_user_opt::<User>(None, false, false), Ok(AuthUser(None))));
    assert!(matches!(auth_user_opt(Some(u.clone()), true, true), Ok(AuthUser(Some(_)))));
    assert!(matches!(auth_user_opt(Some(u), true, false), Err(Rejection::Unauthorized)));
    assert_eq!(Rejection::Unauthorized.status(), 401);
    assert_eq!(Rejection::MissingMiddleware.status(), 500);
    assert_eq!(CurrentUser::from(3).0, 3);
    assert_eq!(AuthUser::from(4).0, 4);
}

#[test]
fn redirect_roundtrip() {
    let m = manager().login_view("/login".to_string());
    let mut info = m.begin(&vec![], &agent(), &host());
    info.login("42".to_string());
    let plan = m.finish(&info, &agent(), &host(), 401, Some("/dashboard?x=1"));
    assert_eq!(plan.status, 303);
    assert_eq!(plan.location, Some("/login?next=%2Fdashboard%3Fx%3D1".to_string()));
    let h = plan.set_cookie.expect("the cookie survives the redirect");
    let pair = h.split(';').next().unwrap().to_string();
    let fp = loginmanager::identity::fingerprint(&agent(), &host());
    assert_eq!(m.decoder().decode(&vec![pair], &fp), Some("42".to_string()));
}

#[test]
fn redirect_without_target() {
    let m = manager();
    let info = m.begin(&vec![], &agent(), &host());
    let plan = m.finish(&info, &agent(), &host(), 401, None);
    assert_eq!(plan.status, 303);
    assert_eq!(plan.location, Some("/login?next=%2F".to_string()));
    assert_eq!(plan.set_cookie, None);
}

#[test]
fn redirect_disabled_or_other_status() {
    let m = manager().redirect(false);
    let info = m.begin(&vec![], &agent(), &host());
    let plan = m.finish(&info, &agent(), &host(), 401, Some("/x"));
    assert_eq!(plan.status, 401);
    assert_eq!(plan.location, None);
    let m = manager();
    let plan = m.finish(&info, &agent(), &host(), 200, Some("/x"));
    assert_eq!(plan.status, 200);
    assert_eq!(plan.location, None);
    let plan = m.finish(&info, &agent(), &host(), 403, Some("/x"));
    assert_eq!(plan.status, 403);
}

#[test]
fn next_to_encoding() {
    let m = manager().login_view("/auth/in".to_string()).next_key("back".to_string());
    assert_eq!(m.next_to("/a b/ü?q=1&r=~x_y.z-w"), "/auth/in?back=%2Fa%20b%2F%C3%BC%3Fq%3D1%26r%3D~x_y.z-w");
    assert_eq!(manager().next_to(""), "/login?next=");
    assert!(manager().is_redirect());
}

#[test]
fn full_request_cycle() {
    let m = manager();
    let mut info = m.begin(&vec![], &agent(), &host());
    info.login("u1".to_string());
    let plan = m.finish(&info, &agent(), &host(), 200, Some("/"));
    let pair = plan.set_cookie.unwrap().split(';').next().unwrap().to_string();

    let next = m.begin(&vec![pair.clone()], &agent(), &host());
    assert_eq!(next.get_key(), Some("u1".to_string()));
    let mut slot: UserSlot<User> = UserSlot::new();
    assert!(matches!(slot.next_step(&next), Lookup::Resolve(k) if k == "u1"));
    slot.store(Some(User { id: 1 }));

    let elsewhere = m.begin(&vec![pair.clone()], &HeaderText::Text("other".to_string()), &host());
    assert_eq!(elsewhere.get_key(), None);

    let mut out = m.begin(&vec![pair], &agent(), &host());
    out.logout();
    let plan = m.finish(&out, &agent(), &host(), 200, Some("/"));
    let cleared = plan.set_cookie.unwrap().split(';').next().unwrap().to_string();
    let after = m.begin(&vec![cleared], &agent(), &host());
    assert_eq!(after.get_key(), None);
}

#[test]
fn begin_with_caches_fingerprint() {
    let m = manager();
    let info = m.begin_with(&vec![], "fp-x".to_string());
    assert_eq!(info.ext(), Some("fp-x".to_string()));
    let mut info = info;
    info.login("k".to_string());
    let plan = m.finish(&info, &HeaderText::Missing, &HeaderText::Missing, 200, None);
    let pair = plan.set_cookie.unwrap().split(';').next().unwrap().to_string();
    assert_eq!(m.begin_with(&vec![pair], "fp-x".to_string()).get_key(), Some("k".to_string()));
}

#[test]
fn payload_layout() {
    assert_eq!(frame_payload("a:b\\c", &Some("k".to_string())), "a\\:b\\\\c:+k");
    assert_eq!(frame_payload("f", &None), "f:-");
    assert_eq!(frame_payload("", &Some("".to_string())), ":+");
    assert_eq!(
        unframe_payload("a\\:b\\\\c:+k"),
        Some(("a:b\\c".to_string(), Some("k".to_string())))
    );
    assert_eq!(unframe_payload("f:-"), Some(("f".to_string(), None)));
    assert_eq!(unframe_payload("f:+"), Some(("f".to_string(), Some(String::new()))));
    assert_eq!(unframe_payload("f:x"), None);
    assert_eq!(unframe_payload("f:--"), None);
    assert_eq!(unframe_payload("no separator"), None);
    assert_eq!(unframe_payload("dangling\\"), None);
    assert_eq!(unframe_payload(""), None);
    assert_eq!(user_for_payload("f:+k", "f"), Some("k".to_string()));
    assert_eq!(user_for_payload("f:+k", "g"), None);
    assert_eq!(user_for_payload("f:-", "f"), None);
}

#[test]
fn middleware_holds_manager() {
    let mw = loginmanager::LoginManagerMiddleware::new(7u8, manager().redirect(false));
    assert_eq!(*mw.service(), 7);
    assert!(!mw.loginmanger().is_redirect());
}
