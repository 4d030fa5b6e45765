use gwmc_admin::forms::LoginForm;
use gwmc_admin::session::{
    admin_for_cookie, check_login_outcome, cookie_user, decode_session_cookie, is_session_cookie_value,
    key_from_bytes, login_cookie, session_cookie_text,
    login_set_cookie, logout_set_cookie, random_key, redirect_for, session_cookie_value,
    AccessDenied, AdminAccount, Cookie, LoginOutcome, ResponseError,
};

fn account() -> AdminAccount {
    AdminAccount { id: 7, password: "ea1f6a32".to_string(), salt: "s".to_string() }
}

fn form(u: &str, p: &str) -> LoginForm {
    LoginForm { username: u.to_string(), passwd: p.to_string() }
}

#[test]
fn new_cookie_is_empty() {
    let c = Cookie::new();
    assert_eq!(c.id, "");
    assert_eq!(c.passwd, "");
    assert_eq!(c.timestamp, "");
    assert_eq!(c.userid, 0);
    let d = Cookie::default();
    assert_eq!(d.userid, 0);
}

#[test]
fn cookie_user_steps() {
    assert!(matches!(cookie_user(None), Err(AccessDenied::NoLogin)));
    assert!(matches!(cookie_user(Some(&Cookie::new())), Err(AccessDenied::Logout)));
    let mut c = Cookie::new();
    c.userid = 7;
    assert!(matches!(cookie_user(Some(&c)), Ok(7)));
}

#[test]
fn cookie_admin_checks() {
    let mut c = Cookie::new();
    c.userid = 7;
    c.passwd = "ea1f6a32".to_string();
    assert!(matches!(admin_for_cookie(&c, None), Err(AccessDenied::InvalidUserID)));
    let found = admin_for_cookie(&c, Some(account())).unwrap();
    assert_eq!(found.id, 7);
    c.passwd = "old".to_string();
    match admin_for_cookie(&c, Some(account())) {
        Err(AccessDenied::PasswordChanged(e)) => {
            assert_eq!(e.error, "用户已更改过密码");
            assert_eq!(e.error_description, "用户已更改过密码");
        }
        _ => panic!("expected a changed password"),
    }
}

#[test]
fn every_refusal_goes_to_login() {
    let reasons = vec![
        AccessDenied::NoLogin,
        AccessDenied::Logout,
        AccessDenied::InvalidUserID,
        AccessDenied::NoRight,
        AccessDenied::PasswordChanged(ResponseError {
            error: "e".to_string(),
            error_description: "d".to_string(),
        }),
    ];
    for r in reasons.iter() {
        assert_eq!(redirect_for(Some(r)), "/login");
    }
    assert_eq!(redirect_for(None), "/login");
}

#[test]
fn response_error_message() {
    let e = ResponseError { error: "无权限".to_string(), error_description: "用户无权限".to_string() };
    assert_eq!(e.message(), "出错提示message: 无权限 =>description:用户无权限");
}

#[test]
fn random_keys_are_alphanumeric() {
    let k = random_key(34);
    assert_eq!(k.chars().count(), 34);
    assert!(k.chars().all(|c| c.is_ascii_alphanumeric()));
    assert_eq!(random_key(0), "");
}

#[test]
fn login_refusals() {
    let a = account();
    match check_login_outcome(&form("", "x"), Some(&a), &None) {
        LoginOutcome::Refused(m) => assert_eq!(m, "登录名不能为空"),
        _ => panic!(),
    }
    match check_login_outcome(&form("u", ""), Some(&a), &None) {
        LoginOutcome::Refused(m) => assert_eq!(m, "密码不能为空"),
        _ => panic!(),
    }
    let none = check_login_outcome(&form("u", "p"), None, &None);
    assert_eq!(none.message(), "查无用户");
    assert_eq!(none.jump_url(), "/login");
    let wrong = check_login_outcome(&form("u", "p"), Some(&a), &Some("other".to_string()));
    assert_eq!(wrong.message(), "用户密码错误");
    assert_eq!(wrong.jump_url(), "/login");
}

#[test]
fn login_success_issues_cookie_that_opens_session() {
    let a = account();
    let ok = check_login_outcome(&form("u", "p"), Some(&a), &Some("ea1f6a32".to_string()));
    assert_eq!(ok.jump_url(), "/");
    assert_eq!(ok.message(), "登录成功");
    match ok {
        LoginOutcome::Accepted(c) => {
            assert_eq!(c.userid, 7);
            assert_eq!(c.passwd, "ea1f6a32");
            assert_eq!(c.id.len(), 34);
            assert_eq!(c.timestamp.len(), 8);
            assert!(matches!(cookie_user(Some(&c)), Ok(7)));
            assert_eq!(admin_for_cookie(&c, Some(account())).unwrap().id, 7);
        }
        _ => panic!(),
    }
    let c = login_cookie(&a);
    assert_eq!(c.userid, 7);
}

#[test]
fn cookie_value_is_base64_and_reads_back() {
    assert_eq!(session_cookie_value("abc"), "YWJj");
    assert_eq!(session_cookie_value("ab"), "YWI=");
    assert_eq!(session_cookie_value("a"), "YQ==");
    assert_eq!(session_cookie_value(""), "");
    let json = r#"{"id":"x","passwd":"密码","timestamp":"t","userid":7}"#;
    let v = session_cookie_value(json);
    assert!(is_session_cookie_value(&v));
    assert_eq!(decode_session_cookie(&v), json.to_string());
    assert_eq!(session_cookie_text(&v), Some(json.to_string()));
    assert_eq!(decode_session_cookie("YWJj"), "abc");
}

#[test]
fn bad_cookie_values_are_refused() {
    assert!(!is_session_cookie_value("***"));
    assert_eq!(session_cookie_text("***"), None);
    // valid Base64 of bytes that are not UTF-8
    assert!(!is_session_cookie_value("/w=="));
    assert_eq!(session_cookie_text("/w=="), None);
}

#[test]
fn cookie_headers() {
    assert_eq!(login_set_cookie("warp-session", "YWJj"), "warp-session=YWJj; Path=/; SameSite=Lax; HttpOpnly");
    assert_eq!(
        logout_set_cookie("warp-session", "{}"),
        "warp-session={}; SameSite=Strict; Max-Age=0; HttpOpnly"
    );
}

#[test]
fn keys_from_drawn_bytes() {
    assert_eq!(key_from_bytes(&vec![b'a', b'Z', b'0']), "aZ0");
    assert_eq!(key_from_bytes(&vec![]), "");
}
