//! Login sessions: the session cookie, how it is checked on each request, and
//! where a refused request is sent.
use vstd::prelude::*;
use vstd::utf8::{decode_utf8, encode_utf8, valid_utf8};
use vstd::string::StringSliceAdditionalSpecFns;
use crate::forms::LoginForm;
use crate::text::push_char;
use crate::text::push_str;

verus! {

/// The session cookie's content.
#[derive(Debug, Clone)]
pub struct Cookie {
    pub id: String,
    pub passwd: String,
    pub timestamp: String,
    pub userid: i32,
}

/// The cookie of nobody: empty texts and user id 0.
pub open spec fn empty_cookie(c: Cookie) -> bool {
    c.id@.len() == 0 && c.passwd@.len() == 0 && c.timestamp@.len() == 0 && c.userid == 0
}

impl Cookie {
    /// The cookie that logging out leaves behind.
    pub fn new() -> (c: Cookie)
        ensures
            empty_cookie(c),
    {
        Cookie { id: String::new(), passwd: String::new(), timestamp: String::new(), userid: 0 }
    }
}

impl Default for Cookie {
    fn default() -> (c: Cookie)
        ensures
            empty_cookie(c),
    {
        Cookie::new()
    }
}

/// An error shown to the user: a message and its description.
#[derive(Debug, Clone)]
pub struct ResponseError {
    pub error: String,
    pub error_description: String,
}

impl ResponseError {
    /// The text of the page that shows this error.
    pub fn message(&self) -> (r: String)
        ensures
            r@ == "出错提示message: "@ + self.error@ + " =>description:"@ + self.error_description@,
    {
        let mut r = String::new();
        push_str(&mut r, "出错提示message: ");
        push_str(&mut r, self.error.as_str());
        push_str(&mut r, " =>description:");
        push_str(&mut r, self.error_description.as_str());
        r
    }
}

/// The cookie names a user that does not exist.
#[derive(Debug)]
pub struct InvalidUserID;

/// The user has logged out.
#[derive(Debug)]
pub struct Logout;

/// The request carries no session cookie.
#[derive(Debug)]
pub struct NoLogin;

/// The user may not open the requested page.
#[derive(Debug)]
pub struct NoRight;

/// Why a request was refused.
#[derive(Debug, Clone)]
pub enum AccessDenied {
    NoLogin,
    Logout,
    InvalidUserID,
    PasswordChanged(ResponseError),
    NoRight,
}

/// What the back office knows of an account when it checks a login.
#[derive(Debug, Clone)]
pub struct AdminAccount {
    pub id: i32,
    pub password: String,
    pub salt: String,
}

/// The error of a cookie whose password is no longer the account's.
pub open spec fn password_changed(e: ResponseError) -> bool {
    e.error@ == "用户已更改过密码"@ && e.error_description@ == "用户已更改过密码"@
}

/// First step of the cookie check: who the cookie claims to be.
pub open spec fn cookie_user_spec(cookie: Option<Cookie>) -> Result<i32, AccessDenied> {
    match cookie {
        None => Err(AccessDenied::NoLogin),
        Some(c) => if c.userid < 1 {
            Err(AccessDenied::Logout)
        } else {
            Ok(c.userid)
        },
    }
}

/// The user id of a session cookie: no cookie means not logged in, an id
/// below 1 means logged out.
pub fn cookie_user(cookie: Option<&Cookie>) -> (r: Result<i32, AccessDenied>)
    ensures
        r == cookie_user_spec(
            match cookie {
                Some(c) => Some(*c),
                None => None,
            },
        ),
{
    match cookie {
        None => Err(AccessDenied::NoLogin),
        Some(c) => if c.userid < 1 {
            Err(AccessDenied::Logout)
        } else {
            Ok(c.userid)
        },
    }
}

/// Second step of the cookie check, once the account with the cookie's id
/// has been looked up.
pub open spec fn admin_for_cookie_spec(cookie: Cookie, found: Option<AdminAccount>) -> Option<
    AdminAccount,
> {
    match found {
        Some(a) => if a.password@ == cookie.passwd@ {
            Some(a)
        } else {
            None
        },
        None => None,
    }
}

/// The account a cookie logs in: none found means an invalid user id; a
/// password other than the cookie's means the password was changed since.
pub fn admin_for_cookie(cookie: &Cookie, found: Option<AdminAccount>) -> (r: Result<
    AdminAccount,
    AccessDenied,
>)
    ensures
        match found {
            None => r matches Err(AccessDenied::InvalidUserID),
            Some(a) => if a.password@ == cookie.passwd@ {
                r == Ok::<AdminAccount, AccessDenied>(a)
            } else {
                r matches Err(AccessDenied::PasswordChanged(e)) && password_changed(e)
            },
        },
        r is Ok <==> admin_for_cookie_spec(*cookie, found) is Some,
        r is Ok ==> admin_for_cookie_spec(*cookie, found) == Some(r->Ok_0),
{
    match found {
        None => Err(AccessDenied::InvalidUserID),
        Some(admin) => {
            if crate::text::text_eq(admin.password.as_str(), cookie.passwd.as_str()) {
                Ok(admin)
            } else {
                let mut error = String::new();
                push_str(&mut error, "用户已更改过密码");
                let mut error_description = String::new();
                push_str(&mut error_description, "用户已更改过密码");
                Err(AccessDenied::PasswordChanged(ResponseError { error, error_description }))
            }
        },
    }
}

/// Where a refused request is sent, whatever the reason (`None`: the page
/// was not found or the refusal was of another kind).
pub fn redirect_for(reason: Option<&AccessDenied>) -> (r: &'static str)
    ensures
        r@ == "/login"@,
{
    match reason {
        Some(AccessDenied::NoLogin) => "/login",
        Some(AccessDenied::Logout) => "/login",
        Some(AccessDenied::InvalidUserID) => "/login",
        Some(AccessDenied::PasswordChanged(_)) => "/login",
        Some(AccessDenied::NoRight) => "/login",
        None => "/login",
    }
}

/// A letter or an ASCII digit: the characters of a random key.
pub open spec fn is_alphanumeric_ascii(c: char) -> bool {
    ('A' <= c && c <= 'Z') || ('a' <= c && c <= 'z') || ('0' <= c && c <= '9')
}

/// One byte drawn with `rand::distributions::Alphanumeric` from the
/// thread-local generator. Claimed: the code of an ASCII letter or digit;
/// which one depends on chance. (`thread_rng` panics only when the operating
/// system's generator fails, whatever the input.)
#[verifier::external_body]
fn sample_alphanumeric() -> (r: u8)
    ensures
        is_alphanumeric_ascii(r as char),
{
    rand::Rng::sample(&mut rand::thread_rng(), rand::distributions::Alphanumeric)
}

/// Each byte taken as the character of the same code.
pub open spec fn chars_of_bytes(bytes: Seq<u8>) -> Seq<char> {
    bytes.map_values(|b: u8| b as char)
}

/// The text whose characters are the given bytes, one for one.
pub fn key_from_bytes(bytes: &Vec<u8>) -> (r: String)
    ensures
        r@ == chars_of_bytes(bytes@),
{
    let mut r = String::new();
    let mut i: usize = 0;
    while i < bytes.len()
        invariant
            i <= bytes@.len(),
            r@ == chars_of_bytes(bytes@.take(i as int)),
        decreases bytes@.len() - i,
    {
        push_char(&mut r, bytes[i] as char);
        i += 1;
        assert(chars_of_bytes(bytes@.take(i as int)) =~= chars_of_bytes(bytes@.take(i - 1)).push(bytes@[i - 1] as char));
    }
    assert(bytes@.take(bytes@.len() as int) =~= bytes@);
    r
}

/// A random text of `len` ASCII letters and digits.
pub fn random_key(len: usize) -> (r: String)
    ensures
        r@.len() == len,
        forall|i: int| 0 <= i < len ==> is_alphanumeric_ascii(#[trigger] r@[i]),
{
    let mut bytes: Vec<u8> = Vec::new();
    let mut i: usize = 0;
    while i < len
        invariant
            i <= len,
            bytes@.len() == i,
            forall|k: int| 0 <= k < i ==> is_alphanumeric_ascii((#[trigger] bytes@[k]) as char),
        decreases len - i,
    {
        bytes.push(sample_alphanumeric());
        i += 1;
    }
    let r = key_from_bytes(&bytes);
    assert forall|k: int| 0 <= k < len implies is_alphanumeric_ascii(#[trigger] r@[k]) by {
        assert(r@[k] == (bytes@[k] as char));
    }
    r
}

/// The result of a login attempt.
#[derive(Debug, Clone)]
pub enum LoginOutcome {
    /// The login was refused, with this message.
    Refused(&'static str),
    /// The login succeeded; this cookie opens the session.
    Accepted(Cookie),
}

impl LoginOutcome {
    /// Where the hint page then leads: back to the login page, or to the home
    /// page after a success.
    pub fn jump_url(&self) -> (r: &'static str)
        ensures
            match self {
                LoginOutcome::Refused(_) => r@ == "/login"@,
                LoginOutcome::Accepted(_) => r@ == "/"@,
            },
    {
        match self {
            LoginOutcome::Refused(_) => "/login",
            LoginOutcome::Accepted(_) => "/",
        }
    }

    /// The message of the hint page.
    pub fn message(&self) -> (r: &'static str)
        ensures
            match self {
                LoginOutcome::Refused(m) => r == m,
                LoginOutcome::Accepted(_) => r@ == "登录成功"@,
            },
    {
        match self {
            LoginOutcome::Refused(m) => m,
            LoginOutcome::Accepted(_) => "登录成功",
        }
    }
}

/// A cookie issued to `admin` at login: a random id of 34 characters and a
/// random stamp of 8, with the account's password and id.
pub open spec fn issued_cookie(c: Cookie, admin: AdminAccount) -> bool {
    &&& c.passwd == admin.password
    &&& c.userid == admin.id
    &&& c.id@.len() == 34
    &&& c.timestamp@.len() == 8
    &&& forall|i: int| 0 <= i < 34 ==> is_alphanumeric_ascii(#[trigger] c.id@[i])
    &&& forall|i: int| 0 <= i < 8 ==> is_alphanumeric_ascii(#[trigger] c.timestamp@[i])
}

/// The cookie of a successful login.
pub fn login_cookie(admin: &AdminAccount) -> (c: Cookie)
    ensures
        issued_cookie(c, *admin),
{
    Cookie {
        id: random_key(34),
        passwd: admin.password.clone(),
        timestamp: random_key(8),
        userid: admin.id,
    }
}

/// Decides a login. `admin` is the account found under the form's name, and
/// `hashed` the form's password hashed with that account's salt (looked up
/// and computed only for a valid form with an account).
pub fn check_login_outcome(form: &LoginForm, admin: Option<&AdminAccount>, hashed: &Option<String>) -> (r: LoginOutcome)
    ensures
        form.username@.len() == 0 ==> (r matches LoginOutcome::Refused(m) && m@ == "登录名不能为空"@),
        form.username@.len() > 0 && form.passwd@.len() == 0 ==> (r matches LoginOutcome::Refused(m)
            && m@ == "密码不能为空"@),
        form.username@.len() > 0 && form.passwd@.len() > 0 ==> match admin {
            None => r matches LoginOutcome::Refused(m) && m@ == "查无用户"@,
            Some(a) => if hashed matches Some(h) && h@ == a.password@ {
                r matches LoginOutcome::Accepted(c) && issued_cookie(c, *a)
            } else {
                r matches LoginOutcome::Refused(m) && m@ == "用户密码错误"@
            },
        },
{
    match form.validate() {
        Err(m) => LoginOutcome::Refused(m),
        Ok(_) => match admin {
            None => LoginOutcome::Refused("查无用户"),
            Some(a) => {
                let same = match hashed {
                    Some(h) => crate::text::text_eq(h.as_str(), a.password.as_str()),
                    None => false,
                };
                if same {
                    LoginOutcome::Accepted(login_cookie(a))
                } else {
                    LoginOutcome::Refused("用户密码错误")
                }
            },
        },
    }
}

/// A cookie issued at login opens the session of the same account: the
/// check of each request finds its user and accepts it (for account ids from
/// 1 up; 0 and below mark a logged-out cookie).
pub proof fn lemma_issued_cookie_accepted(c: Cookie, admin: AdminAccount)
    requires
        issued_cookie(c, admin),
        admin.id >= 1,
    ensures
        cookie_user_spec(Some(c)) == Ok::<i32, AccessDenied>(admin.id),
        admin_for_cookie_spec(c, Some(admin)) == Some(admin),
{
}

/// The cookie left by logging out is refused as logged out.
pub proof fn lemma_logged_out_cookie_refused(c: Cookie)
    requires
        empty_cookie(c),
    ensures
        cookie_user_spec(Some(c)) matches Err(AccessDenied::Logout),
{
}

/// The symbol of the standard Base64 alphabet for a six-bit value.
pub open spec fn base64_symbol(v: int) -> char {
    if v < 26 {
        (65 + v) as char
    } else if v < 52 {
        (97 + v - 26) as char
    } else if v < 62 {
        (48 + v - 52) as char
    } else if v == 62 {
        '+'
    } else {
        '/'
    }
}

/// Standard Base64 with `=` padding: each group of three bytes becomes four
/// symbols; a last group of one or two bytes is padded to four.
pub open spec fn base64_encoded(b: Seq<u8>) -> Seq<char>
    decreases b.len(),
{
    if b.len() == 0 {
        Seq::empty()
    } else {
        let x0 = b[0] as int;
        if b.len() == 1 {
            seq![base64_symbol(x0 / 4), base64_symbol((x0 % 4) * 16), '=', '=']
        } else {
            let x1 = b[1] as int;
            if b.len() == 2 {
                seq![
                    base64_symbol(x0 / 4),
                    base64_symbol((x0 % 4) * 16 + x1 / 16),
                    base64_symbol((x1 % 16) * 4),
                    '=',
                ]
            } else {
                let x2 = b[2] as int;
                seq![
                    base64_symbol(x0 / 4),
                    base64_symbol((x0 % 4) * 16 + x1 / 16),
                    base64_symbol((x1 % 16) * 4 + x2 / 64),
                    base64_symbol(x2 % 64),
                ] + base64_encoded(b.skip(3))
            }
        }
    }
}

/// What `base64::decode` (standard alphabet, padding) gives for a text:
/// the bytes, or `None` for a text it refuses.
pub uninterp spec fn base64_decoded(text: Seq<char>) -> Option<Seq<u8>>;

/// `base64::encode`. Claimed: the standard, padded Base64 text of the bytes,
/// which `base64::decode` reads back as the same bytes.
/// The crate panics when the output length overflows `usize`, which the bound
/// on the input rules out.
#[verifier::external_body]
fn base64_encode(bytes: &[u8]) -> (r: String)
    requires
        bytes@.len() <= usize::MAX / 2,
    ensures
        r@ == base64_encoded(bytes@),
        base64_decoded(r@) == Some(bytes@),
{
    base64::encode(bytes)
}

/// `base64::decode`. Claimed: the result is `base64_decoded` of the text, and
/// a text that `base64::encode` wrote decodes to the bytes it was written
/// from. The crate panics when the text's length plus 7 (or plus 3)
/// overflows `usize`, which the bound on the input rules out.
#[verifier::external_body]
fn base64_decode(text: &str) -> (r: Option<Vec<u8>>)
    requires
        text.spec_bytes().len() <= usize::MAX - 7,
    ensures
        r is Some <==> base64_decoded(text@) is Some,
        r is Some ==> r->0@ == base64_decoded(text@)->0,
        forall|b: Seq<u8>| #[trigger] base64_encoded(b) == text@ ==> r is Some && r->0@ == b,
{
    base64::decode(text).ok()
}

/// `String::from_utf8`. Claimed (as std documents it): a text exactly when
/// the bytes are valid UTF-8, and then the text they encode.
#[verifier::external_body]
fn utf8_text(bytes: Vec<u8>) -> (r: Option<String>)
    ensures
        r is Some <==> valid_utf8(bytes@),
        r is Some ==> r->0@ == decode_utf8(bytes@),
{
    String::from_utf8(bytes).ok()
}

/// The value of a session cookie that carries the text `t` (the cookie's
/// JSON): its UTF-8 bytes in Base64.
pub open spec fn session_cookie_value_spec(t: Seq<char>) -> Seq<char> {
    base64_encoded(encode_utf8(t))
}

/// The text carried by a session cookie value, if it is Base64 of UTF-8.
pub open spec fn session_cookie_text_spec(v: Seq<char>) -> Option<Seq<char>> {
    match base64_decoded(v) {
        Some(b) => if valid_utf8(b) {
            Some(decode_utf8(b))
        } else {
            None
        },
        None => None,
    }
}

/// Base64 text is ASCII, four symbols for every started group of three
/// bytes.
pub proof fn lemma_base64_encoded_shape(b: Seq<u8>)
    ensures
        base64_encoded(b).len() == 4 * ((b.len() + 2) / 3),
        vstd::utf8::is_ascii_chars(base64_encoded(b)),
    decreases b.len(),
{
    if b.len() >= 3 {
        lemma_base64_encoded_shape(b.skip(3));
        let head = seq![
            base64_symbol(b[0] as int / 4),
            base64_symbol((b[0] as int % 4) * 16 + b[1] as int / 16),
            base64_symbol((b[1] as int % 16) * 4 + b[2] as int / 64),
            base64_symbol(b[2] as int % 64),
        ];
        let tail = base64_encoded(b.skip(3));
        assert(base64_encoded(b) == head + tail);
        assert forall|i: int| 0 <= i < (head + tail).len() implies '\0' <= #[trigger] (head + tail)[i] <= '\u{7f}' by {
            if i >= 4 {
                assert((head + tail)[i] == tail[i - 4]);
            }
        }
    }
}

/// A text whose characters are all ASCII takes one byte per character.
proof fn lemma_ascii_utf8_len(s: Seq<char>)
    requires
        vstd::utf8::is_ascii_chars(s),
    ensures
        encode_utf8(s).len() == s.len(),
{
    vstd::utf8::is_ascii_chars_encode_utf8(s);
}

/// The value issued for a text takes four bytes for every started group of
/// three bytes of the text, which stays below the decoder's bound for a
/// text of at most `usize::MAX / 2` bytes.
pub proof fn lemma_issued_value_length(json: Seq<char>)
    requires
        encode_utf8(json).len() <= usize::MAX / 2,
    ensures
        encode_utf8(session_cookie_value_spec(json)).len() == 4 * ((encode_utf8(json).len() + 2) / 3),
        encode_utf8(session_cookie_value_spec(json)).len() <= usize::MAX - 7,
{
    lemma_base64_encoded_shape(encode_utf8(json));
    lemma_ascii_utf8_len(session_cookie_value_spec(json));
    let n = encode_utf8(json).len();
    assert(4 * ((n + 2) / 3) <= usize::MAX - 7) by (nonlinear_arith)
        requires
            n <= usize::MAX / 2,
            usize::MAX >= 0xffff_ffff,
    ;
}

/// Every value issued for a text of at most `usize::MAX / 2` bytes can be
/// read, whatever its length (a real login's cookie runs well past 128
/// bytes), given the round trip that `session_cookie_value` ensures.
pub proof fn lemma_issued_value_readable(json: Seq<char>, value: &str)
    requires
        encode_utf8(json).len() <= usize::MAX / 2,
        value@ == session_cookie_value_spec(json),
        session_cookie_text_spec(value@) == Some(json),
    ensures
        session_cookie_readable(value),
{
    lemma_issued_value_length(json);
}

/// The value of the session cookie that carries `json`; it reads back as
/// `json`.
pub fn session_cookie_value(json: &str) -> (r: String)
    requires
        json.spec_bytes().len() <= usize::MAX / 2,
    ensures
        r@ == session_cookie_value_spec(json@),
        session_cookie_text_spec(r@) == Some(json@),
        encode_utf8(r@).len() <= usize::MAX - 7,
{
    let r = base64_encode(json.as_bytes());
    proof {
        vstd::utf8::encode_utf8_valid_utf8(json@);
        vstd::utf8::encode_utf8_decode_utf8(json@);
        lemma_issued_value_length(json@);
    }
    r
}

/// A session cookie value that can be read: not too long to decode, and
/// Base64 of UTF-8 text. Any other value stops the request.
pub open spec fn session_cookie_readable(value: &str) -> bool {
    value.spec_bytes().len() <= usize::MAX - 7 && session_cookie_text_spec(value@) is Some
}

/// Whether a session cookie value can be read.
pub fn is_session_cookie_value(value: &str) -> (r: bool)
    ensures
        r == session_cookie_readable(value),
{
    if value.as_bytes().len() > usize::MAX - 7 {
        return false;
    }
    match base64_decode(value) {
        None => false,
        Some(bytes) => utf8_text(bytes).is_some(),
    }
}

/// The text carried by a readable session cookie value. A value written by
/// `session_cookie_value` gives back the text it was written from.
pub fn decode_session_cookie(value: &str) -> (r: String)
    requires
        session_cookie_readable(value),
    ensures
        session_cookie_text_spec(value@) == Some(r@),
        forall|t: Seq<char>| #[trigger] session_cookie_value_spec(t) == value@ ==> r@ == t,
{
    match base64_decode(value) {
        None => {
            assert(false);
            String::new()
        },
        Some(bytes) => {
            let ghost b = bytes@;
            match utf8_text(bytes) {
                None => {
                    assert(false);
                    String::new()
                },
                Some(r) => {
                    proof {
                        assert forall|t: Seq<char>| #[trigger] session_cookie_value_spec(t) == value@ implies r@ == t by {
                            vstd::utf8::encode_utf8_decode_utf8(t);
                            assert(base64_encoded(encode_utf8(t)) == value@);
                            assert(b == encode_utf8(t));
                        }
                    }
                    r
                },
            }
        },
    }
}

/// The text carried by a session cookie value, or `None` for a value that
/// cannot be read (where a request is stopped).
pub fn session_cookie_text(value: &str) -> (r: Option<String>)
    ensures
        r is Some <==> session_cookie_readable(value),
        r is Some ==> session_cookie_text_spec(value@) == Some(r->0@),
        session_cookie_readable(value) ==> forall|t: Seq<char>|
            #[trigger] session_cookie_value_spec(t) == value@ ==> r->0@ == t,
{
    if is_session_cookie_value(value) {
        Some(decode_session_cookie(value))
    } else {
        None
    }
}

/// A session cookie value issued at login reads back as the text it was
/// issued for, and the cookie that text carries opens the session of its
/// account. `issued` is what `session_cookie_value` ensures of the value it
/// writes for `json`; `read` is what `decode_session_cookie` (or
/// `session_cookie_text`) ensures of the text it gives back; the cookie is
/// one that `login_cookie` made for `admin`.
pub proof fn lemma_login_value_accepted(
    json: Seq<char>,
    value: Seq<char>,
    read: Seq<char>,
    c: Cookie,
    admin: AdminAccount,
)
    requires
        session_cookie_text_spec(value) == Some(json),
        session_cookie_text_spec(value) == Some(read),
        issued_cookie(c, admin),
        admin.id >= 1,
    ensures
        read == json,
        cookie_user_spec(Some(c)) == Ok::<i32, AccessDenied>(admin.id),
        admin_for_cookie_spec(c, Some(admin)) == Some(admin),
{
    lemma_issued_cookie_accepted(c, admin);
}

/// The `Set-Cookie` value that opens a session: the cookie under
/// `session_name`, for the whole site.
pub fn login_set_cookie(session_name: &str, value: &str) -> (r: String)
    ensures
        r@ == session_name@ + "="@ + value@ + "; Path=/; SameSite=Lax; HttpOpnly"@,
{
    let mut r = String::new();
    push_str(&mut r, session_name);
    push_str(&mut r, "=");
    push_str(&mut r, value);
    push_str(&mut r, "; Path=/; SameSite=Lax; HttpOpnly");
    r
}

/// The `Set-Cookie` value of logging out: the empty cookie's JSON, expired
/// at once.
pub fn logout_set_cookie(session_name: &str, cookie_json: &str) -> (r: String)
    ensures
        r@ == session_name@ + "="@ + cookie_json@ + "; SameSite=Strict; Max-Age=0; HttpOpnly"@,
{
    let mut r = String::new();
    push_str(&mut r, session_name);
    push_str(&mut r, "=");
    push_str(&mut r, cookie_json);
    push_str(&mut r, "; SameSite=Strict; Max-Age=0; HttpOpnly");
    r
}

} // verus!
