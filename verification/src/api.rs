//! The VRChat API client's logic: how a login or session reply is read, the
//! Basic credentials of a login, the session cookies, the limit on automatic
//! logins and the lockout of failing endpoints.
use vstd::prelude::*;

use crate::i18n::views;
use crate::markdown::{cat2, cat3, join_with, joined_with};
use vstd::string::StringSliceAdditionalSpecFns;
use crate::stamps::{elapsed, elapsed_since, StampMap};
use crate::text::{
    append_str, chars_of, decimal, find, find_chars, lemma_find_from_found, slice_chars, split_chars,
    split_on, string_from, trim, trim_chars, u64_text,
};
use crate::translations::eq_lit;
use crate::watcher::opt_view;

verus! {

/// The base of every API address.
pub const API_BASE: &'static str = "https://api.vrchat.cloud/api/1";

/// The outcome of a login or session check.
#[derive(Debug, Clone, Copy, PartialEq, Eq, Structural)]
pub enum LoginStatus {
    Success,
    TwoFactor,
    Failed,
}

/// The answer to a login, a second-factor check or a session check: the
/// outcome, the second-factor methods asked for, a message, and the user
/// (its JSON text).
#[derive(Debug)]
pub struct LoginResponse {
    pub status: LoginStatus,
    pub requires_two_factor_auth: Option<Vec<String>>,
    pub message: Option<String>,
    pub user: Option<String>,
}

/// What the client reads of a reply from `auth/user`: the HTTP status, the
/// `requiresTwoFactorAuth` list when the reply holds one (each element, where
/// it is a text), the text of `error.message` where there is one, and the
/// reply's JSON text (`null` when it is no JSON).
#[derive(Debug)]
pub struct AuthReply {
    pub status_code: u16,
    pub tfa: Option<Vec<Option<String>>>,
    pub error_message: Option<String>,
    pub body: String,
}

/// The mathematical value of a login answer.
pub struct LoginModel {
    pub status: LoginStatus,
    pub methods: Option<Seq<Seq<char>>>,
    pub message: Option<Seq<char>>,
    pub user: Option<Seq<char>>,
}

/// The value of a login answer.
pub open spec fn login_model(r: LoginResponse) -> LoginModel {
    LoginModel {
        status: r.status,
        methods: match r.requires_two_factor_auth {
            Some(v) => Some(views(v@)),
            None => None,
        },
        message: opt_view(r.message),
        user: opt_view(r.user),
    }
}

/// An HTTP status of success (2xx).
pub open spec fn is_success(code: u16) -> bool {
    200 <= code <= 299
}

/// The second-factor methods of a `requiresTwoFactorAuth` list: its texts.
pub open spec fn tfa_methods(items: Seq<Option<String>>) -> Seq<Seq<char>>
    decreases items.len(),
{
    if items.len() == 0 {
        seq![]
    } else {
        tfa_methods(items.drop_last()) + match items.last() {
            Some(m) => seq![m@],
            None => seq![],
        }
    }
}

/// A failed answer with a message.
pub open spec fn failed_with(message: Seq<char>) -> LoginModel {
    LoginModel { status: LoginStatus::Failed, methods: None, message: Some(message), user: None }
}

/// How an `auth/user` reply is read: a success asking for a second factor
/// (a non-empty list), a success with the user, an unauthorized reply that
/// names second-factor methods (any list), or a failure with `failure`.
pub open spec fn auth_outcome(reply: AuthReply, failure: Seq<char>) -> LoginModel {
    let tfa = match reply.tfa {
        Some(v) => Some(v@),
        None => None,
    };
    if is_success(reply.status_code) {
        match tfa {
            Some(items) => if items.len() > 0 {
                LoginModel {
                    status: LoginStatus::TwoFactor,
                    methods: Some(tfa_methods(items)),
                    message: None,
                    user: None,
                }
            } else {
                LoginModel {
                    status: LoginStatus::Success,
                    methods: None,
                    message: None,
                    user: Some(reply.body@),
                }
            },
            None => LoginModel {
                status: LoginStatus::Success,
                methods: None,
                message: None,
                user: Some(reply.body@),
            },
        }
    } else if reply.status_code == 401 && tfa is Some {
        LoginModel {
            status: LoginStatus::TwoFactor,
            methods: Some(tfa_methods(tfa->0)),
            message: None,
            user: None,
        }
    } else {
        failed_with(failure)
    }
}

/// The message of a failed login: the reply's error message, else the status.
pub open spec fn login_failure(reply: AuthReply) -> Seq<char> {
    match reply.error_message {
        Some(m) => m@,
        None => "Login failed with status "@ + decimal(reply.status_code as nat),
    }
}

fn methods_of(items: &Vec<Option<String>>) -> (r: Vec<String>)
    ensures
        views(r@) == tfa_methods(items@),
{
    let mut out: Vec<String> = Vec::new();
    let mut i: usize = 0;
    while i < items.len()
        invariant
            i <= items@.len(),
            views(out@) == tfa_methods(items@.take(i as int)),
        decreases items@.len() - i,
    {
        assert(items@.take(i + 1).drop_last() == items@.take(i as int));
        match &items[i] {
            Some(m) => {
                let ghost before = out@;
                out.push(m.clone());
                assert(views(out@) =~= views(before).push(m@));
            },
            None => {},
        }
        i = i + 1;
    }
    assert(items@.take(items@.len() as int) == items@);
    out
}

fn failed(message: String) -> (r: LoginResponse)
    ensures
        login_model(r) == failed_with(message@),
{
    LoginResponse {
        status: LoginStatus::Failed,
        requires_two_factor_auth: None,
        message: Some(message),
        user: None,
    }
}

fn read_auth_reply(reply: &AuthReply, failure: String) -> (r: LoginResponse)
    ensures
        login_model(r) == auth_outcome(*reply, failure@),
{
    if 200 <= reply.status_code && reply.status_code <= 299 {
        match &reply.tfa {
            Some(items) => {
                if items.len() > 0 {
                    return LoginResponse {
                        status: LoginStatus::TwoFactor,
                        requires_two_factor_auth: Some(methods_of(items)),
                        message: None,
                        user: None,
                    };
                }
            },
            None => {},
        }
        return LoginResponse {
            status: LoginStatus::Success,
            requires_two_factor_auth: None,
            message: None,
            user: Some(reply.body.clone()),
        };
    }
    if reply.status_code == 401 {
        match &reply.tfa {
            Some(items) => {
                return LoginResponse {
                    status: LoginStatus::TwoFactor,
                    requires_two_factor_auth: Some(methods_of(items)),
                    message: None,
                    user: None,
                };
            },
            None => {},
        }
    }
    failed(failure)
}

/// Reads the reply to a login.
pub fn login_outcome(reply: &AuthReply) -> (r: LoginResponse)
    ensures
        login_model(r) == auth_outcome(*reply, login_failure(*reply)),
{
    let failure = match &reply.error_message {
        Some(m) => m.clone(),
        None => cat2("Login failed with status ", u64_text(reply.status_code as u64).as_str()),
    };
    read_auth_reply(reply, failure)
}

/// Reads the reply to a session check; a failure means "not logged in".
pub fn check_auth_outcome(reply: &AuthReply) -> (r: LoginResponse)
    ensures
        login_model(r) == auth_outcome(*reply, "Not logged in"@),
{
    read_auth_reply(reply, "Not logged in".to_owned())
}

/// The answer when a session check could not reach the API.
pub fn not_logged_in() -> (r: LoginResponse)
    ensures
        login_model(r) == failed_with("Not logged in"@),
{
    failed("Not logged in".to_owned())
}

/// The answer when a request could not be sent: its error's text.
pub fn send_failed(error_text: String) -> (r: LoginResponse)
    ensures
        login_model(r) == failed_with(error_text@),
{
    failed(error_text)
}

/// What a login starts from: refused while another login runs, refused
/// without a user name and password (those given, else the configured ones),
/// else the credentials to use.
#[derive(Debug)]
pub enum LoginStart {
    Refused(LoginResponse),
    Credentials { username: String, password: String },
}

/// The credential used: the one given, else the configured one, else empty.
pub open spec fn credential(given: Option<Seq<char>>, configured: Option<Seq<char>>) -> Seq<char> {
    match given {
        Some(g) => g,
        None => match configured {
            Some(c) => c,
            None => seq![],
        },
    }
}

fn pick_credential(given: Option<&str>, configured: &Option<String>) -> (r: String)
    ensures
        r@ == credential(
            match given {
                Some(g) => Some(g@),
                None => None,
            },
            opt_view(*configured),
        ),
{
    match given {
        Some(g) => g.to_owned(),
        None => match configured {
            Some(c) => c.clone(),
            None => String::new(),
        },
    }
}

/// Decides how a login starts.
pub fn start_login(
    in_progress: bool,
    username: Option<&str>,
    password: Option<&str>,
    configured_username: &Option<String>,
    configured_password: &Option<String>,
) -> (r: LoginStart)
    ensures
        ({
            let u = credential(
                match username {
                    Some(g) => Some(g@),
                    None => None,
                },
                opt_view(*configured_username),
            );
            let p = credential(
                match password {
                    Some(g) => Some(g@),
                    None => None,
                },
                opt_view(*configured_password),
            );
            match r {
                LoginStart::Refused(resp) => if in_progress {
                    login_model(resp) == failed_with("Login already in progress"@)
                } else {
                    (u.len() == 0 || p.len() == 0) && login_model(resp) == failed_with(
                        "Missing credentials"@,
                    )
                },
                LoginStart::Credentials { username: un, password: pw } => !in_progress && u.len()
                    > 0 && p.len() > 0 && un@ == u && pw@ == p,
            }
        }),
{
    if in_progress {
        return LoginStart::Refused(failed("Login already in progress".to_owned()));
    }
    let u = pick_credential(username, configured_username);
    let p = pick_credential(password, configured_password);
    if u.as_str().is_empty() || p.as_str().is_empty() {
        return LoginStart::Refused(failed("Missing credentials".to_owned()));
    }
    LoginStart::Credentials { username: u, password: p }
}

/// A byte left as it is by URL encoding: an ASCII letter or digit, or one of
/// `-`, `.`, `_`, `~`.
pub open spec fn url_safe_byte(b: u8) -> bool {
    (48 <= b <= 57) || (65 <= b <= 90) || (97 <= b <= 122) || b == 45 || b == 46 || b == 95 || b
        == 126
}

/// The upper-case hexadecimal digit of `d` (`0 <= d < 16`).
pub open spec fn hex_digit(d: int) -> char {
    if d < 10 {
        (48 + d) as char
    } else {
        (55 + d) as char
    }
}

/// The URL encoding of bytes: a safe byte as its character, any other as `%`
/// and two upper-case hexadecimal digits.
pub open spec fn percent_encoded(bytes: Seq<u8>) -> Seq<char>
    decreases bytes.len(),
{
    if bytes.len() == 0 {
        seq![]
    } else {
        let b = bytes.last();
        percent_encoded(bytes.drop_last()) + if url_safe_byte(b) {
            seq![b as char]
        } else {
            seq!['%', hex_digit(b as int / 16), hex_digit(b as int % 16)]
        }
    }
}

/// URL-encodes a text (`urlencoding::encode`): every byte of its UTF-8 form
/// but ASCII letters, digits and `-._~` becomes `%XX` with upper-case
/// hexadecimal digits.
#[verifier::external_body]
fn url_encode(text: &str) -> (r: String)
    ensures
        r@ == percent_encoded(text.spec_bytes()),
{
    urlencoding::encode(text).into_owned()
}

/// The base64 digit of `n` (`0 <= n < 64`) in the standard alphabet.
pub open spec fn b64_digit(n: int) -> char {
    if n < 26 {
        (65 + n) as char
    } else if n < 52 {
        (71 + n) as char
    } else if n < 62 {
        (n - 4) as char
    } else if n == 62 {
        '+'
    } else {
        '/'
    }
}

/// The standard base64 encoding of bytes, padded with `=`.
pub open spec fn base64(b: Seq<u8>) -> Seq<char>
    decreases b.len(),
{
    if b.len() == 0 {
        seq![]
    } else if b.len() == 1 {
        let x = b[0] as int;
        seq![b64_digit(x / 4), b64_digit((x % 4) * 16), '=', '=']
    } else if b.len() == 2 {
        let x = b[0] as int;
        let y = b[1] as int;
        seq![b64_digit(x / 4), b64_digit((x % 4) * 16 + y / 16), b64_digit((y % 16) * 4), '=']
    } else {
        let x = b[0] as int;
        let y = b[1] as int;
        let z = b[2] as int;
        seq![
            b64_digit(x / 4),
            b64_digit((x % 4) * 16 + y / 16),
            b64_digit((y % 16) * 4 + z / 64),
            b64_digit(z % 64),
        ] + base64(b.subrange(3, b.len() as int))
    }
}

/// Encodes bytes in standard base64 with padding
/// (`base64::engine::general_purpose::STANDARD.encode`). The encoder panics
/// when the encoded length overflows `usize`, which the bound on the input
/// rules out.
#[verifier::external_body]
fn base64_encode(bytes: &[u8]) -> (r: String)
    requires
        bytes@.len() * 2 < usize::MAX,
    ensures
        r@ == base64(bytes@),
{
    base64::Engine::encode(&base64::engine::general_purpose::STANDARD, bytes)
}

/// The `Authorization` value of a login: `Basic` and the base64 of the
/// URL-encoded user name and password joined by `:`.
pub open spec fn basic_auth(username: Seq<char>, password: Seq<char>) -> Seq<char> {
    "Basic "@ + base64(
        vstd::utf8::encode_utf8(
            percent_encoded(vstd::utf8::encode_utf8(username)) + ":"@ + percent_encoded(
                vstd::utf8::encode_utf8(password),
            ),
        ),
    )
}

/// UTF-8 takes at most four bytes a character.
proof fn lemma_utf8_len(s: Seq<char>)
    ensures
        vstd::utf8::encode_utf8(s).len() <= 4 * s.len(),
    decreases s.len(),
{
    if s.len() > 0 {
        lemma_utf8_len(s.drop_first());
    }
}

/// URL encoding takes at most three characters a byte.
proof fn lemma_percent_len(b: Seq<u8>)
    ensures
        percent_encoded(b).len() <= 3 * b.len(),
    decreases b.len(),
{
    if b.len() > 0 {
        lemma_percent_len(b.drop_last());
    }
}

/// The `Authorization` value of a login with these credentials.
pub fn basic_auth_header(username: &str, password: &str) -> (r: String)
    requires
        (username@.len() + password@.len()) * 100 + 10 < usize::MAX,
    ensures
        r@ == basic_auth(username@, password@),
{
    let eu = url_encode(username);
    let ep = url_encode(password);
    let joined = cat3(eu.as_str(), ":", ep.as_str());
    proof {
        lemma_utf8_len(username@);
        lemma_utf8_len(password@);
        lemma_percent_len(vstd::utf8::encode_utf8(username@));
        lemma_percent_len(vstd::utf8::encode_utf8(password@));
        lemma_utf8_len(joined@);
        reveal_strlit(":");
    }
    let bytes = joined.as_str().as_bytes();
    let b = base64_encode(bytes);
    cat2("Basic ", b.as_str())
}

/// The cookie a `name=value` text sets, after trimming: split at the first
/// `=`, with neither side empty.
pub open spec fn cookie_pair(part: Seq<char>) -> Option<(Seq<char>, Seq<char>)> {
    let t = trim(part);
    match find(t, seq!['=']) {
        Some(k) => if 0 < k && k < t.len() && k + 1 < t.len() {
            Some((t.subrange(0, k), t.subrange(k + 1, t.len() as int)))
        } else {
            None
        },
        None => None,
    }
}

/// The cookies the texts set, in order.
pub open spec fn cookie_pairs(parts: Seq<Seq<char>>) -> Seq<(Seq<char>, Seq<char>)>
    decreases parts.len(),
{
    if parts.len() == 0 {
        seq![]
    } else {
        cookie_pairs(parts.drop_last()) + match cookie_pair(parts.last()) {
            Some(p) => seq![p],
            None => seq![],
        }
    }
}

/// The cookie part of each `Set-Cookie` value: what precedes its first `;`.
pub open spec fn set_cookie_parts(values: Seq<Seq<char>>) -> Seq<Seq<char>> {
    values.map_values(|v: Seq<char>| split_on(v, ';')[0])
}

/// No two cookies of the jar have the same name.
pub open spec fn unique_names(jar: Seq<(Seq<char>, Seq<char>)>) -> bool {
    forall|i: int, k: int| 0 <= i < k < jar.len() ==> (#[trigger] jar[i]).0 != (#[trigger] jar[k]).0
}

/// The jar holds a cookie named `name`.
pub open spec fn has_name(jar: Seq<(Seq<char>, Seq<char>)>, name: Seq<char>) -> bool {
    exists|i: int| 0 <= i < jar.len() && (#[trigger] jar[i]).0 == name
}

/// Where the jar holds the cookie named `name`.
pub open spec fn name_at(jar: Seq<(Seq<char>, Seq<char>)>, name: Seq<char>) -> int {
    choose|i: int| 0 <= i < jar.len() && (#[trigger] jar[i]).0 == name
}

/// The jar with a cookie set: its value replaced where the jar holds one of
/// that name, else added at the end.
pub open spec fn upsert(jar: Seq<(Seq<char>, Seq<char>)>, p: (Seq<char>, Seq<char>)) -> Seq<
    (Seq<char>, Seq<char>),
> {
    if has_name(jar, p.0) {
        jar.update(name_at(jar, p.0), p)
    } else {
        jar.push(p)
    }
}

/// The jar after setting the cookies in order.
pub open spec fn jar_of(pairs: Seq<(Seq<char>, Seq<char>)>) -> Seq<(Seq<char>, Seq<char>)>
    decreases pairs.len(),
{
    if pairs.len() == 0 {
        seq![]
    } else {
        upsert(jar_of(pairs.drop_last()), pairs.last())
    }
}

/// The value of the cookie named `name` in the jar.
pub open spec fn cookie_value(jar: Seq<(Seq<char>, Seq<char>)>, name: Seq<char>) -> Option<Seq<char>> {
    if has_name(jar, name) {
        Some(jar[name_at(jar, name)].1)
    } else {
        None
    }
}

/// The last value set for `name`.
pub open spec fn last_value(pairs: Seq<(Seq<char>, Seq<char>)>, name: Seq<char>) -> Option<Seq<char>>
    decreases pairs.len(),
{
    if pairs.len() == 0 {
        None
    } else if pairs.last().0 == name {
        Some(pairs.last().1)
    } else {
        last_value(pairs.drop_last(), name)
    }
}

/// Setting a cookie keeps the names unique, gives the name its new value and
/// leaves every other cookie as it was.
pub proof fn lemma_upsert(jar: Seq<(Seq<char>, Seq<char>)>, p: (Seq<char>, Seq<char>), name: Seq<char>)
    requires
        unique_names(jar),
    ensures
        unique_names(upsert(jar, p)),
        cookie_value(upsert(jar, p), name) == (if name == p.0 {
            Some(p.1)
        } else {
            cookie_value(jar, name)
        }),
{
    let j2 = upsert(jar, p);
    if has_name(jar, p.0) {
        let i = name_at(jar, p.0);
        assert(forall|k: int| 0 <= k < jar.len() ==> (#[trigger] j2[k]).0 == jar[k].0);
        assert(j2[i] == p);
        if has_name(j2, name) {
            let k = name_at(j2, name);
            assert(jar[k].0 == name);
            if name != p.0 {
                assert(k != i);
                assert(has_name(jar, name));
                let k0 = name_at(jar, name);
                assert(k0 == k);
            } else {
                assert(k == i);
            }
        } else if has_name(jar, name) {
            let k0 = name_at(jar, name);
            assert(j2[k0].0 == name);
        }
    } else {
        assert(forall|k: int| 0 <= k < jar.len() ==> (#[trigger] j2[k]) == jar[k]);
        assert(j2[jar.len() as int] == p);
        if has_name(j2, name) {
            let k = name_at(j2, name);
            if k < jar.len() {
                assert(has_name(jar, name));
                let k0 = name_at(jar, name);
                assert(j2[k0].0 == name);
            }
        } else if has_name(jar, name) {
            let k0 = name_at(jar, name);
            assert(j2[k0].0 == name);
        }
    }
}

/// The merged cookies: each name once, with the value last set for it.
pub proof fn lemma_jar_of(pairs: Seq<(Seq<char>, Seq<char>)>, name: Seq<char>)
    ensures
        unique_names(jar_of(pairs)),
        cookie_value(jar_of(pairs), name) == last_value(pairs, name),
    decreases pairs.len(),
{
    if pairs.len() > 0 {
        lemma_jar_of(pairs.drop_last(), name);
        lemma_upsert(jar_of(pairs.drop_last()), pairs.last(), name);
    }
}

/// The cookies of a jar as a `Cookie` header: `name=value`, joined by `; `.
pub open spec fn cookie_header(jar: Seq<(Seq<char>, Seq<char>)>) -> Seq<char> {
    joined_with(jar.map_values(|p: (Seq<char>, Seq<char>)| p.0 + "="@ + p.1), "; "@)
}

/// The jar after merging the cookies of the `Set-Cookie` values `received`
/// into the cookies of the header `existing`.
pub open spec fn merged_jar(existing: Seq<char>, received: Seq<Seq<char>>) -> Seq<
    (Seq<char>, Seq<char>),
> {
    jar_of(cookie_pairs(split_on(existing, ';')) + cookie_pairs(set_cookie_parts(received)))
}

/// The cookies of a jar, by name and value.
pub open spec fn jar_view(v: Seq<(String, String)>) -> Seq<(Seq<char>, Seq<char>)> {
    v.map_values(|p: (String, String)| (p.0@, p.1@))
}

fn parse_cookie_pair(part: &[char]) -> (r: Option<(String, String)>)
    ensures
        match r {
            Some(p) => cookie_pair(part@) == Some((p.0@, p.1@)),
            None => cookie_pair(part@) is None,
        },
{
    let t = trim_chars(part);
    let mut eq: Vec<char> = Vec::new();
    eq.push('=');
    assert(eq@ == seq!['=']);
    match find_chars(t.as_slice(), eq.as_slice()) {
        Some(k) => {
            proof {
                lemma_find_from_found(t@, seq!['='], 0);
            }
            if 0 < k && k < t.len() && k + 1 < t.len() {
                let name = slice_chars(t.as_slice(), 0, k);
                let value = slice_chars(t.as_slice(), k + 1, t.len());
                Some((string_from(name.as_slice()), string_from(value.as_slice())))
            } else {
                None
            }
        },
        None => None,
    }
}

fn jar_set(jar: &mut Vec<(String, String)>, name: String, value: String)
    requires
        unique_names(jar_view(old(jar)@)),
    ensures
        unique_names(jar_view(final(jar)@)),
        jar_view(final(jar)@) == upsert(jar_view(old(jar)@), (name@, value@)),
{
    let ghost before = jar_view(jar@);
    let ghost p = (name@, value@);
    proof {
        lemma_upsert(before, p, name@);
    }
    let n = chars_of(name.as_str());
    let mut i: usize = 0;
    while i < jar.len()
        invariant
            n@ == name@,
            before == jar_view(jar@),
            before == jar_view(old(jar)@),
            unique_names(before),
            p == (name@, value@),
            i <= jar@.len(),
            forall|k: int| 0 <= k < i ==> (#[trigger] jar@[k]).0@ != name@,
        decreases jar@.len() - i,
    {
        if eq_lit(n.as_slice(), jar[i].0.as_str()) {
            proof {
                assert(before[i as int].0 == name@);
                assert(has_name(before, name@));
                let k = name_at(before, name@);
                if k != i {
                    assert(before[k].0 == before[i as int].0);
                }
                assert(k == i);
            }
            jar.set(i, (name, value));
            assert(jar_view(jar@) =~= before.update(i as int, p));
            return;
        }
        i = i + 1;
    }
    assert(!has_name(before, name@)) by {
        if has_name(before, name@) {
            let k = name_at(before, name@);
            assert(jar@[k].0@ == name@);
        }
    }
    jar.push((name, value));
    assert(jar_view(jar@) =~= before.push(p));
}

/// Merges the cookies set by a response (its `Set-Cookie` values) into the
/// cookie header `existing`: each cookie once, with the value last set for it,
/// in the order the names first appeared.
pub fn merge_cookies(existing: &str, new_cookies: &[String]) -> (r: String)
    ensures
        r@ == cookie_header(merged_jar(existing@, views(new_cookies@))),
{
    let mut jar: Vec<(String, String)> = Vec::new();
    let ex = chars_of(existing);
    let parts = split_chars(ex.as_slice(), ';');
    let ghost ps = split_on(existing@, ';');
    let mut i: usize = 0;
    assert(jar_view(jar@) =~= jar_of(cookie_pairs(ps.take(0))));
    while i < parts.len()
        invariant
            ps == split_on(existing@, ';'),
            parts@.len() == ps.len(),
            forall|k: int| 0 <= k < parts@.len() ==> #[trigger] parts@[k]@ == ps[k],
            i <= parts@.len(),
            unique_names(jar_view(jar@)),
            jar_view(jar@) == jar_of(cookie_pairs(ps.take(i as int))),
        decreases parts@.len() - i,
    {
        assert(ps.take(i + 1).drop_last() == ps.take(i as int));
        assert(ps.take(i + 1).last() == parts@[i as int]@);
        match parse_cookie_pair(parts[i].as_slice()) {
            Some((name, value)) => {
                jar_set(&mut jar, name, value);
                assert(cookie_pairs(ps.take(i + 1)).drop_last() =~= cookie_pairs(ps.take(i as int)));
            },
            None => {},
        }
        i = i + 1;
    }
    assert(ps.take(ps.len() as int) == ps);
    let ghost first = cookie_pairs(ps);
    let ghost rs = set_cookie_parts(views(new_cookies@));
    let mut k: usize = 0;
    assert(first + cookie_pairs(rs.take(0)) =~= first);
    while k < new_cookies.len()
        invariant
            first == cookie_pairs(split_on(existing@, ';')),
            rs == set_cookie_parts(views(new_cookies@)),
            rs.len() == new_cookies@.len(),
            k <= new_cookies@.len(),
            unique_names(jar_view(jar@)),
            jar_view(jar@) == jar_of(first + cookie_pairs(rs.take(k as int))),
        decreases new_cookies@.len() - k,
    {
        let c = chars_of(new_cookies[k].as_str());
        let cparts = split_chars(c.as_slice(), ';');
        assert(views(new_cookies@)[k as int] == new_cookies@[k as int]@);
        assert(rs[k as int] == split_on(new_cookies@[k as int]@, ';')[0]);
        assert(rs.take(k + 1).drop_last() == rs.take(k as int));
        assert(rs.take(k + 1).last() == rs[k as int]);
        match parse_cookie_pair(cparts[0].as_slice()) {
            Some((name, value)) => {
                jar_set(&mut jar, name, value);
                assert((first + cookie_pairs(rs.take(k + 1))).drop_last() =~= first + cookie_pairs(
                    rs.take(k as int),
                ));
            },
            None => {
                assert(first + cookie_pairs(rs.take(k + 1)) =~= first + cookie_pairs(
                    rs.take(k as int),
                ));
            },
        }
        k = k + 1;
    }
    assert(rs.take(rs.len() as int) == rs);
    let mut items: Vec<String> = Vec::new();
    let mut m: usize = 0;
    while m < jar.len()
        invariant
            m <= jar@.len(),
            views(items@) == jar_view(jar@).take(m as int).map_values(
                |p: (Seq<char>, Seq<char>)| p.0 + "="@ + p.1,
            ),
        decreases jar@.len() - m,
    {
        let ghost before = items@;
        let ghost jv = jar_view(jar@);
        assert(jv.take(m + 1) == jv.take(m as int).push(jv[m as int]));
        assert(jv[m as int] == (jar@[m as int].0@, jar@[m as int].1@));
        items.push(cat3(jar[m].0.as_str(), "=", jar[m].1.as_str()));
        assert(views(items@) =~= views(before).push(items@[m as int]@));
        assert(jv.take(m + 1).map_values(|p: (Seq<char>, Seq<char>)| p.0 + "="@ + p.1) =~= jv.take(
            m as int,
        ).map_values(|p: (Seq<char>, Seq<char>)| p.0 + "="@ + p.1).push(jv[m as int].0 + "="@ + jv[m as int].1));
        m = m + 1;
    }
    assert(jar_view(jar@).take(jar@.len() as int) == jar_view(jar@));
    join_with(&items, "; ")
}

/// At most this many automatic logins an hour.
pub const MAX_AUTO_LOGIN_PER_HOUR: usize = 3;

/// An hour, in nanoseconds.
pub const HOUR_NANOS: u64 = 3_600_000_000_000;

/// The attempts still inside the hour before `now`; all of them while the
/// clock has not yet run an hour.
pub open spec fn recent_attempts(times: Seq<u64>, now: u64) -> Seq<u64> {
    if now >= HOUR_NANOS {
        times.filter(|t: u64| t > now - HOUR_NANOS)
    } else {
        times
    }
}

/// The automatic logins of the last hour, never more than the allowed number.
#[derive(Debug)]
pub struct AutoLoginLimiter {
    attempts: Vec<u64>,
}

impl View for AutoLoginLimiter {
    type V = Seq<u64>;

    /// The times of the remembered attempts, oldest first.
    closed spec fn view(&self) -> Seq<u64> {
        self.attempts@
    }
}

impl AutoLoginLimiter {
    /// Never more than the allowed attempts are remembered.
    #[verifier::type_invariant]
    spec fn bounded(self) -> bool {
        self.attempts@.len() <= MAX_AUTO_LOGIN_PER_HOUR
    }

    /// No attempt yet.
    pub fn new() -> (r: AutoLoginLimiter)
        ensures
            r@.len() == 0,
    {
        AutoLoginLimiter { attempts: Vec::new() }
    }

    /// The times of the remembered attempts, oldest first; never more than
    /// the allowed number.
    pub fn attempts(&self) -> (r: &[u64])
        ensures
            r@ == self@,
            r@.len() <= MAX_AUTO_LOGIN_PER_HOUR,
    {
        proof {
            use_type_invariant(self);
        }
        self.attempts.as_slice()
    }

    /// Whether an automatic login may be tried at `now`: the attempts older
    /// than an hour are forgotten, and one is allowed, and remembered, while
    /// fewer than the limit remain.
    pub fn try_attempt(&mut self, now: u64) -> (r: bool)
        ensures
            r == (recent_attempts(old(self)@, now).len() < MAX_AUTO_LOGIN_PER_HOUR),
            final(self)@ == (if r {
                recent_attempts(old(self)@, now).push(now)
            } else {
                recent_attempts(old(self)@, now)
            }),
    {
        proof {
            use_type_invariant(&*self);
        }
        let ghost before = self.attempts@;
        let mut current: Vec<u64> = Vec::new();
        std::mem::swap(&mut current, &mut self.attempts);
        assert(current@ == before);
        let mut kept: Vec<u64> = Vec::new();
        if now >= HOUR_NANOS {
            let cutoff = now - HOUR_NANOS;
            let mut i: usize = 0;
            while i < current.len()
                invariant
                    current@ == before,
                    cutoff == now - HOUR_NANOS,
                    i <= before.len(),
                    kept@ == before.take(i as int).filter(|t: u64| t > cutoff),
                decreases before.len() - i,
            {
                proof {
                    reveal_with_fuel(Seq::filter, 1);
                    assert(before.take(i + 1).drop_last() == before.take(i as int));
                }
                if current[i] > cutoff {
                    kept.push(current[i]);
                }
                i = i + 1;
            }
            assert(before.take(before.len() as int) == before);
        } else {
            kept = current;
        }
        proof {
            before.lemma_filter_len(|t: u64| t > now - HOUR_NANOS);
        }
        assert(kept@ == recent_attempts(before, now));
        if kept.len() >= MAX_AUTO_LOGIN_PER_HOUR {
            self.attempts = kept;
            false
        } else {
            kept.push(now);
            self.attempts = kept;
            true
        }
    }
}

/// At most three automatic logins an hour: an attempt is allowed only while
/// fewer than three attempts lie within the hour before it, and the limiter
/// never remembers more than three.
pub proof fn lemma_auto_login_bounded(times: Seq<u64>, now: u64)
    requires
        times.len() <= MAX_AUTO_LOGIN_PER_HOUR,
    ensures
        recent_attempts(times, now).len() <= times.len(),
        recent_attempts(times, now).len() < MAX_AUTO_LOGIN_PER_HOUR ==> recent_attempts(
            times,
            now,
        ).push(now).len() <= MAX_AUTO_LOGIN_PER_HOUR,
        now >= HOUR_NANOS ==> forall|i: int|
            0 <= i < recent_attempts(times, now).len() ==> #[trigger] recent_attempts(times, now)[i]
                > now - HOUR_NANOS,
{
    times.lemma_filter_len(|t: u64| t > now - HOUR_NANOS);
    if now >= HOUR_NANOS {
        assert forall|i: int| 0 <= i < recent_attempts(times, now).len() implies #[trigger] recent_attempts(
            times,
            now,
        )[i] > now - HOUR_NANOS by {
            times.lemma_filter_pred(|t: u64| t > now - HOUR_NANOS, i);
        }
    }
}

/// How long an endpoint that answered 403 or 404 is not asked again: a minute.
pub const LOCKOUT_NANOS: u64 = 60_000_000_000;

/// The endpoint failed less than a minute before `now`.
pub open spec fn locked_out(failed: Map<Seq<char>, u64>, endpoint: Seq<char>, now: u64) -> bool {
    failed.contains_key(endpoint) && elapsed(now, failed[endpoint]) < LOCKOUT_NANOS
}

/// Whether `endpoint` is still locked out at `now` after a failure.
pub fn is_locked_out(failed: &StampMap, endpoint: &str, now: u64) -> (r: bool)
    requires
        failed.wf(),
    ensures
        r == locked_out(failed@, endpoint@, now),
{
    match failed.get(endpoint) {
        Some(t) => elapsed_since(now, t) < LOCKOUT_NANOS,
        None => false,
    }
}

/// The error of a request to a locked-out endpoint.
pub fn lockout_message(endpoint: &str) -> (r: String)
    ensures
        r@ == "Endpoint "@ + endpoint@ + " is in lockout period"@,
{
    cat3("Endpoint ", endpoint, " is in lockout period")
}

/// What a request does with the status of its reply.
#[derive(Debug, Clone, Copy, PartialEq, Eq, Structural)]
pub enum RequestStep {
    /// Fail: a second factor is required.
    TwoFactorRequired,
    /// Unauthorized, with credentials: log in automatically and retry.
    AutoLogin,
    /// Fail: unauthorized.
    Unauthorized,
    /// Fail with the API's error; an endpoint that answered 403 or 404 is
    /// locked out first.
    ApiError { lock_endpoint: bool },
    /// Succeed with the reply.
    Success,
}

/// The step a request takes for a reply with status `code`: an unauthorized
/// reply asks for a second factor when it names one, else leads to an
/// automatic login when credentials are configured; 403 and 404 lock the
/// endpoint out; any other failure is the API's error.
pub open spec fn request_step(code: u16, names_second_factor: bool, has_credentials: bool) -> RequestStep {
    if code == 401 {
        if names_second_factor {
            RequestStep::TwoFactorRequired
        } else if has_credentials {
            RequestStep::AutoLogin
        } else {
            RequestStep::Unauthorized
        }
    } else if !is_success(code) {
        RequestStep::ApiError { lock_endpoint: code == 403 || code == 404 }
    } else {
        RequestStep::Success
    }
}

/// Decides what a request does with the status of its reply.
pub fn next_request_step(code: u16, names_second_factor: bool, has_credentials: bool) -> (r: RequestStep)
    ensures
        r == request_step(code, names_second_factor, has_credentials),
{
    if code == 401 {
        if names_second_factor {
            RequestStep::TwoFactorRequired
        } else if has_credentials {
            RequestStep::AutoLogin
        } else {
            RequestStep::Unauthorized
        }
    } else if !(200 <= code && code <= 299) {
        RequestStep::ApiError { lock_endpoint: code == 403 || code == 404 }
    } else {
        RequestStep::Success
    }
}

/// The error of a failed request: `API error <status>: <reply text>`.
pub fn api_error_message(code: u16, text: &str) -> (r: String)
    ensures
        r@ == "API error "@ + decimal(code as nat) + ": "@ + text@,
{
    let mut v: Vec<char> = Vec::new();
    append_str(&mut v, "API error ");
    append_str(&mut v, u64_text(code as u64).as_str());
    append_str(&mut v, ": ");
    append_str(&mut v, text);
    string_from(v.as_slice())
}

/// What follows an automatic login: `None` to retry the request after a
/// success, else the request's error.
pub open spec fn after_auto_login_spec(status: LoginStatus) -> Option<Seq<char>> {
    match status {
        LoginStatus::Success => None,
        LoginStatus::TwoFactor => Some("2FA_REQUIRED"@),
        LoginStatus::Failed => Some("Auto-login failed"@),
    }
}

/// Decides what follows an automatic login.
pub fn after_auto_login(status: LoginStatus) -> (r: Option<String>)
    ensures
        opt_view(r) == after_auto_login_spec(status),
{
    match status {
        LoginStatus::Success => None,
        LoginStatus::TwoFactor => Some("2FA_REQUIRED".to_owned()),
        LoginStatus::Failed => Some("Auto-login failed".to_owned()),
    }
}

/// What a request does at once with an unauthorized reply: `Some(error)` to
/// fail, `None` to log in automatically (the attempt then counts).
pub open spec fn unauthorized_action(
    names_second_factor: bool,
    has_credentials: bool,
    attempts: Seq<u64>,
    now: u64,
) -> Option<Seq<char>> {
    if names_second_factor {
        Some("2FA_REQUIRED"@)
    } else if !has_credentials {
        Some("Unauthorized"@)
    } else if recent_attempts(attempts, now).len() >= MAX_AUTO_LOGIN_PER_HOUR {
        Some("Unauthorized (auto-login rate limited)"@)
    } else {
        None
    }
}

/// The attempts remembered after an unauthorized reply: untouched unless
/// credentials are configured and no second factor is named; then those of
/// the last hour, with `now` added when a login is tried.
pub open spec fn attempts_after_unauthorized(
    names_second_factor: bool,
    has_credentials: bool,
    attempts: Seq<u64>,
    now: u64,
) -> Seq<u64> {
    if names_second_factor || !has_credentials {
        attempts
    } else if recent_attempts(attempts, now).len() >= MAX_AUTO_LOGIN_PER_HOUR {
        recent_attempts(attempts, now)
    } else {
        recent_attempts(attempts, now).push(now)
    }
}

/// Handles an unauthorized reply (status 401) at `now`: fails when the reply
/// names a second factor, when no credentials are configured, or when three
/// automatic logins were tried within the hour; else the attempt is counted
/// and `None` asks for an automatic login.
pub fn unauthorized_reply(
    names_second_factor: bool,
    has_credentials: bool,
    limiter: &mut AutoLoginLimiter,
    now: u64,
) -> (r: Option<String>)
    ensures
        opt_view(r) == unauthorized_action(
            names_second_factor,
            has_credentials,
            old(limiter)@,
            now,
        ),
        final(limiter)@ == attempts_after_unauthorized(
            names_second_factor,
            has_credentials,
            old(limiter)@,
            now,
        ),
{
    match next_request_step(401, names_second_factor, has_credentials) {
        RequestStep::TwoFactorRequired => Some("2FA_REQUIRED".to_owned()),
        RequestStep::AutoLogin => {
            if limiter.try_attempt(now) {
                None
            } else {
                Some("Unauthorized (auto-login rate limited)".to_owned())
            }
        },
        _ => Some("Unauthorized".to_owned()),
    }
}

/// The end of a request whose reply was unauthorized, when an automatic
/// login (if one is tried) ends with `login`: `Some(error)`, or `None` when
/// the request is sent again; and the automatic-login attempts remembered.
pub open spec fn unauthorized_outcome(
    names_second_factor: bool,
    has_credentials: bool,
    attempts: Seq<u64>,
    now: u64,
    login: LoginStatus,
) -> (Option<Seq<char>>, Seq<u64>) {
    if names_second_factor {
        (Some("2FA_REQUIRED"@), attempts)
    } else if !has_credentials {
        (Some("Unauthorized"@), attempts)
    } else if recent_attempts(attempts, now).len() >= MAX_AUTO_LOGIN_PER_HOUR {
        (Some("Unauthorized (auto-login rate limited)"@), recent_attempts(attempts, now))
    } else {
        (
            match login {
                LoginStatus::Success => None,
                LoginStatus::TwoFactor => Some("2FA_REQUIRED"@),
                LoginStatus::Failed => Some("Auto-login failed"@),
            },
            recent_attempts(attempts, now).push(now),
        )
    }
}

/// An unauthorized reply ends as follows: a reply naming a second factor
/// fails with `2FA_REQUIRED`; without credentials it fails with
/// `Unauthorized`; after three automatic logins within the hour it fails as
/// rate limited and no login is tried; else the attempt is counted, a login
/// runs, and its success sends the request again, a second factor fails with
/// `2FA_REQUIRED`, and a failure with `Auto-login failed`. The steps
/// `request_step`, `unauthorized_reply` and `after_auto_login` together do
/// exactly this, and the login's outcome matters only when a login runs.
pub proof fn lemma_unauthorized_reply(
    names_second_factor: bool,
    has_credentials: bool,
    attempts: Seq<u64>,
    now: u64,
    login: LoginStatus,
    other: LoginStatus,
)
    ensures
        (request_step(401, names_second_factor, has_credentials) is AutoLogin) == (
        !names_second_factor && has_credentials),
        unauthorized_outcome(names_second_factor, has_credentials, attempts, now, login).1
            == attempts_after_unauthorized(names_second_factor, has_credentials, attempts, now),
        unauthorized_outcome(names_second_factor, has_credentials, attempts, now, login).0 == match unauthorized_action(
            names_second_factor,
            has_credentials,
            attempts,
            now,
        ) {
            Some(e) => Some(e),
            None => after_auto_login_spec(login),
        },
        unauthorized_action(names_second_factor, has_credentials, attempts, now) is Some
            ==> unauthorized_outcome(names_second_factor, has_credentials, attempts, now, login)
            == unauthorized_outcome(names_second_factor, has_credentials, attempts, now, other),
{
}

/// The address of an API endpoint.
pub fn api_url(endpoint: &str) -> (r: String)
    ensures
        r@ == API_BASE@ + "/"@ + endpoint@,
{
    cat3(API_BASE, "/", endpoint)
}

/// The endpoint of a user's profile.
pub fn user_endpoint(user_id: &str) -> (r: String)
    ensures
        r@ == "users/"@ + user_id@,
{
    cat2("users/", user_id)
}

/// The endpoint of a user's groups.
pub fn user_groups_endpoint(user_id: &str) -> (r: String)
    ensures
        r@ == "users/"@ + user_id@ + "/groups"@,
{
    cat3("users/", user_id, "/groups")
}

/// The endpoint that checks a second-factor code of type `tfa_type`.
pub fn tfa_endpoint(tfa_type: &str) -> (r: String)
    ensures
        r@ == "auth/twofactorauth/"@ + tfa_type@ + "/verify"@,
{
    cat3("auth/twofactorauth/", tfa_type, "/verify")
}

/// The answer to a second-factor check: a success (with the user fetched
/// after it, where that worked) when the code was verified, else a failure.
pub open spec fn tfa_outcome(verified: bool, user: Option<Seq<char>>) -> LoginModel {
    if verified {
        LoginModel { status: LoginStatus::Success, methods: None, message: None, user }
    } else {
        failed_with("Verification failed"@)
    }
}

/// Reads the reply to a second-factor check.
pub fn tfa_result(verified: bool, user: Option<String>) -> (r: LoginResponse)
    ensures
        login_model(r) == tfa_outcome(verified, opt_view(user)),
{
    if verified {
        LoginResponse { status: LoginStatus::Success, requires_two_factor_auth: None, message: None, user }
    } else {
        failed("Verification failed".to_owned())
    }
}

/// The second-factor type to verify a code with: e-mail first, then an
/// authenticator app, then a recovery code; e-mail when none is named.
pub open spec fn tfa_type_for(methods: Seq<Seq<char>>) -> Seq<char> {
    if methods.contains("emailOtp"@) {
        "emailotp"@
    } else if methods.contains("totp"@) {
        "totp"@
    } else if methods.contains("otp"@) {
        "otp"@
    } else {
        "emailotp"@
    }
}

fn names_method(methods: &[String], m: &str) -> (r: bool)
    ensures
        r == views(methods@).contains(m@),
{
    let k = chars_of(m);
    let mut i: usize = 0;
    while i < methods.len()
        invariant
            k@ == m@,
            i <= methods@.len(),
            forall|j: int| 0 <= j < i ==> methods@[j]@ != m@,
        decreases methods@.len() - i,
    {
        if eq_lit(k.as_slice(), methods[i].as_str()) {
            assert(views(methods@)[i as int] == m@);
            return true;
        }
        i = i + 1;
    }
    assert forall|j: int| 0 <= j < views(methods@).len() implies views(methods@)[j] != m@ by {
        assert(views(methods@)[j] == methods@[j]@);
    }
    false
}

/// Chooses the second-factor type to verify a code with.
pub fn choose_tfa_type(methods: &[String]) -> (r: &'static str)
    ensures
        r@ == tfa_type_for(views(methods@)),
{
    if names_method(methods, "emailOtp") {
        "emailotp"
    } else if names_method(methods, "totp") {
        "totp"
    } else if names_method(methods, "otp") {
        "otp"
    } else {
        "emailotp"
    }
}

/// The proxy a client goes through: none when the setting is absent or
/// blank; a setting naming a scheme (`://`) as it is, else as SOCKS5.
pub open spec fn proxy_url_of(setting: Option<Seq<char>>) -> Option<Seq<char>> {
    match setting {
        Some(p) => if trim(p).len() == 0 {
            None
        } else if crate::text::contains(p, "://"@) {
            Some(p)
        } else {
            Some("socks5://"@ + p)
        },
        None => None,
    }
}

/// The proxy a client goes through.
pub fn proxy_url(setting: Option<&str>) -> (r: Option<String>)
    ensures
        opt_view(r) == proxy_url_of(
            match setting {
                Some(p) => Some(p@),
                None => None,
            },
        ),
{
    match setting {
        Some(p) => {
            let c = chars_of(p);
            if trim_chars(c.as_slice()).len() == 0 {
                None
            } else if crate::text::contains_str(c.as_slice(), "://") {
                Some(p.to_owned())
            } else {
                Some(cat2("socks5://", p))
            }
        },
        None => None,
    }
}

/// The cookie a client starts with: the saved one when it is not empty, else
/// the configured one, else none.
pub open spec fn initial_cookie_of(saved: Option<Seq<char>>, configured: Option<Seq<char>>) -> Seq<char> {
    match saved {
        Some(s) => if s.len() > 0 {
            s
        } else {
            match configured {
                Some(c) => c,
                None => seq![],
            }
        },
        None => match configured {
            Some(c) => c,
            None => seq![],
        },
    }
}

/// The cookie a client starts with.
pub fn initial_cookie(saved: Option<String>, configured: Option<String>) -> (r: String)
    ensures
        r@ == initial_cookie_of(opt_view(saved), opt_view(configured)),
{
    let s = match saved {
        Some(s) => s,
        None => String::new(),
    };
    if !s.as_str().is_empty() {
        return s;
    }
    match configured {
        Some(c) => c,
        None => String::new(),
    }
}

/// A saved cookie that is not empty is the one a client starts with; without
/// one (none saved, or an empty one) the client starts with the configured
/// cookie, and with no cookie at all when none is configured either.
pub proof fn lemma_initial_cookie_prefers_saved(
    saved: Option<Seq<char>>,
    configured: Option<Seq<char>>,
)
    ensures
        saved is Some && saved.unwrap().len() > 0 ==> initial_cookie_of(saved, configured)
            == saved.unwrap(),
        (saved is None || saved == Some(Seq::<char>::empty())) && configured is Some
            ==> initial_cookie_of(saved, configured) == configured.unwrap(),
        (saved is None || saved == Some(Seq::<char>::empty())) && configured is None
            ==> initial_cookie_of(saved, configured).len() == 0,
{
}

/// What a start-up authentication does after checking the saved session: it
/// is done when the session is valid or asks for a second factor, or when no
/// credentials are configured; else it logs in.
pub open spec fn startup_logs_in(check: LoginStatus, has_credentials: bool) -> bool {
    check == LoginStatus::Failed && has_credentials
}

/// Whether a start-up authentication logs in after checking the session.
pub fn startup_should_login(check: LoginStatus, has_credentials: bool) -> (r: bool)
    ensures
        r == startup_logs_in(check, has_credentials),
{
    match check {
        LoginStatus::Failed => has_credentials,
        _ => false,
    }
}

/// Start-up logs in only when the saved session was refused and credentials
/// are configured: a valid session is kept, a session asking for a second
/// factor waits for it, and without credentials there is nothing to log in
/// with.
pub proof fn lemma_startup_login_only_after_refusal(check: LoginStatus, has_credentials: bool)
    ensures
        check == LoginStatus::Success ==> !startup_logs_in(check, has_credentials),
        check == LoginStatus::TwoFactor ==> !startup_logs_in(check, has_credentials),
        !has_credentials ==> !startup_logs_in(check, has_credentials),
        check == LoginStatus::Failed && has_credentials ==> startup_logs_in(check, has_credentials),
{
}

} // verus!
