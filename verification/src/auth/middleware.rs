//! The check that guards authenticated routes: the `Cookie` header must name
//! a registered access token, with the password auth type and the
//! authenticated flag, and nothing else.
use vstd::prelude::*;
use vstd::utf8::{decode_utf8, encode_utf8, valid_utf8};

use crate::auth::error::{AuthFailure, AuthenticationError};
use crate::auth::password::is_uuid_text_char;
use crate::auth::token_db::AccessTokenDatabase;
use crate::database::Timestamp;
use crate::text::{
    find_first, is_whitespace, lemma_entry_reads_back, lemma_split_concat, lemma_split_single,
    split_on, split_once, str_chars, trim, trim_bounds,
};

verus! {

broadcast use vstd::string::group_string_axioms;

pub const ACCESS_TOKEN: &'static str = "immich_access_token";

pub const AUTH_TYPE: &'static str = "immich_auth_type";

pub const IS_AUTHENTICATED: &'static str = "immich_is_authenticated";

/// The value of the `immich_auth_type` cookie.
#[derive(Debug, PartialEq, Eq, Structural)]
pub enum AuthType {
    Password,
}

/// The value of the `immich_is_authenticated` cookie.
#[derive(Debug, PartialEq, Eq, Structural)]
pub enum IsAuthenticated {
    True,
}

pub open spec fn spec_auth_type(v: Seq<char>) -> Result<AuthType, AuthFailure> {
    if v == "password"@ {
        Ok(AuthType::Password)
    } else {
        Err(AuthFailure::WrongAuthTypeValue(v))
    }
}

pub open spec fn spec_is_authenticated(v: Seq<char>) -> Result<IsAuthenticated, AuthFailure> {
    if v == "true"@ {
        Ok(IsAuthenticated::True)
    } else {
        Err(AuthFailure::WrongIsAuthenticatedValue(v))
    }
}

/// Whether two string slices hold the same characters.
fn str_eq(a: &str, b: &str) -> (r: bool)
    ensures
        r == (a@ == b@),
{
    a.to_owned() == b.to_owned()
}

impl AuthType {
    /// Reads the `immich_auth_type` value: only `password` is accepted.
    pub fn from_str(s: &str) -> (r: Result<AuthType, AuthenticationError>)
        ensures
            match spec_auth_type(s@) {
                Ok(a) => r == Ok::<AuthType, AuthenticationError>(a),
                Err(e) => r matches Err(x) && x@ == e,
            },
    {
        if str_eq(s, "password") {
            Ok(AuthType::Password)
        } else {
            Err(AuthenticationError::WrongAuthTypeValue(s.to_owned()))
        }
    }
}

impl IsAuthenticated {
    /// Reads the `immich_is_authenticated` value: only `true` is accepted.
    pub fn from_str(s: &str) -> (r: Result<IsAuthenticated, AuthenticationError>)
        ensures
            match spec_is_authenticated(s@) {
                Ok(a) => r == Ok::<IsAuthenticated, AuthenticationError>(a),
                Err(e) => r matches Err(x) && x@ == e,
            },
    {
        if str_eq(s, "true") {
            Ok(IsAuthenticated::True)
        } else {
            Err(AuthenticationError::WrongIsAuthenticatedValue(s.to_owned()))
        }
    }
}

/// The fields read from a `Cookie` header so far.
#[derive(Debug)]
pub struct Cookie {
    pub immich_access_token: Option<String>,
    pub immich_auth_type: Option<AuthType>,
    pub immich_is_authenticated: Option<IsAuthenticated>,
}

/// The mathematical value of a [`Cookie`].
pub struct CookieView {
    pub access_token: Option<Seq<char>>,
    pub auth_type: Option<AuthType>,
    pub is_authenticated: Option<IsAuthenticated>,
}

impl View for Cookie {
    type V = CookieView;

    open spec fn view(&self) -> CookieView {
        CookieView {
            access_token: match self.immich_access_token {
                Some(t) => Some(t@),
                None => None,
            },
            auth_type: self.immich_auth_type,
            is_authenticated: self.immich_is_authenticated,
        }
    }
}

pub open spec fn empty_cookie() -> CookieView {
    CookieView { access_token: None, auth_type: None, is_authenticated: None }
}

/// What one `field=value` entry, at position `idx` of the header, does to the
/// fields read so far: the entry is trimmed, split at its first `=`, and
/// fills the field it names, which must not be filled yet.
pub open spec fn cookie_entry(c: CookieView, idx: nat, raw: Seq<char>) -> Result<CookieView, AuthFailure> {
    match split_once(trim(raw), '=') {
        None => Err(AuthFailure::MalformedCookie(idx)),
        Some((field, value)) => {
            if field == ACCESS_TOKEN@ {
                if c.access_token is Some {
                    Err(AuthFailure::DuplicateField(ACCESS_TOKEN@))
                } else {
                    Ok(CookieView { access_token: Some(value), ..c })
                }
            } else if field == AUTH_TYPE@ {
                if c.auth_type is Some {
                    Err(AuthFailure::DuplicateField(AUTH_TYPE@))
                } else {
                    match spec_auth_type(value) {
                        Ok(a) => Ok(CookieView { auth_type: Some(a), ..c }),
                        Err(e) => Err(e),
                    }
                }
            } else if field == IS_AUTHENTICATED@ {
                if c.is_authenticated is Some {
                    Err(AuthFailure::DuplicateField(IS_AUTHENTICATED@))
                } else {
                    match spec_is_authenticated(value) {
                        Ok(a) => Ok(CookieView { is_authenticated: Some(a), ..c }),
                        Err(e) => Err(e),
                    }
                }
            } else {
                Err(AuthFailure::UnexpectedField(field))
            }
        },
    }
}

/// The entries read in order from an empty cookie; the first failing entry
/// decides the error.
pub open spec fn scan_cookie(entries: Seq<Seq<char>>) -> Result<CookieView, AuthFailure>
    decreases entries.len(),
{
    if entries.len() == 0 {
        Ok(empty_cookie())
    } else {
        match scan_cookie(entries.drop_last()) {
            Err(e) => Err(e),
            Ok(c) => cookie_entry(c, (entries.len() - 1) as nat, entries.last()),
        }
    }
}

/// The access token that the text of a `Cookie` header carries: its entries
/// are separated by `;`, and all three fields must be present.
pub open spec fn cookie_token(s: Seq<char>) -> Result<Seq<char>, AuthFailure> {
    match scan_cookie(split_on(s, ';')) {
        Err(e) => Err(e),
        Ok(c) => {
            if c.access_token is None {
                Err(AuthFailure::MissingField(ACCESS_TOKEN@))
            } else if c.auth_type is None {
                Err(AuthFailure::MissingField(AUTH_TYPE@))
            } else if c.is_authenticated is None {
                Err(AuthFailure::MissingField(IS_AUTHENTICATED@))
            } else {
                Ok(c.access_token.unwrap())
            }
        },
    }
}

/// Visible ASCII or a tab: the bytes a header value must consist of to be
/// read as text.
pub open spec fn is_visible_ascii(b: u8) -> bool {
    (32 <= b && b < 127) || b == 9
}

/// A visible ASCII character or a tab.
pub open spec fn is_visible_ascii_char(c: char) -> bool {
    (' ' <= c && c <= '~') || c == '\t'
}

pub open spec fn all_visible_ascii(bytes: Seq<u8>) -> bool {
    forall|i: int| 0 <= i < bytes.len() ==> is_visible_ascii(#[trigger] bytes[i])
}

/// The access token that a request's `Cookie` header carries, `header`
/// being its bytes (`None` when the request has no such header): the bytes
/// must be visible ASCII, and their text must carry the three fields.
pub open spec fn header_token(header: Option<Seq<u8>>) -> Result<Seq<char>, AuthFailure> {
    match header {
        None => Err(AuthFailure::MissingAuthCookie),
        Some(bytes) => {
            if !all_visible_ascii(bytes) {
                Err(AuthFailure::NonUtf8Cookie)
            } else {
                cookie_token(decode_utf8(bytes))
            }
        },
    }
}

/// The user a registered access token belongs to, or the refusal of an
/// unknown token.
pub open spec fn token_user(tokens: Map<Seq<char>, Seq<char>>, token: Seq<char>) -> Result<
    Seq<char>,
    AuthFailure,
> {
    if tokens.contains_key(token) {
        Ok(tokens[token])
    } else {
        Err(AuthFailure::UnknownAccessToken)
    }
}

/// The outcome of authenticating a request whose `Cookie` header holds
/// `header` (`None` when it has none), against the registered `tokens`: the
/// id of the token's user, or why the request is refused.
pub open spec fn authentication(tokens: Map<Seq<char>, Seq<char>>, header: Option<Seq<u8>>) -> Result<
    Seq<char>,
    AuthFailure,
> {
    match header_token(header) {
        Err(e) => Err(e),
        Ok(token) => token_user(tokens, token),
    }
}

proof fn lemma_scan_error_stays(p: Seq<Seq<char>>, q: Seq<Seq<char>>)
    requires
        scan_cookie(p) is Err,
    ensures
        scan_cookie(p + q) == scan_cookie(p),
    decreases q.len(),
{
    if q.len() == 0 {
        assert(p + q =~= p);
    } else {
        lemma_scan_error_stays(p, q.drop_last());
        assert((p + q).drop_last() =~= p + q.drop_last());
    }
}

/// Applies the entry `chars[start..end]`, the `idx`-th of the header `s`, to
/// the cookie read so far.
fn apply_entry(
    s: &str,
    chars: &Vec<char>,
    start: usize,
    end: usize,
    idx: usize,
    cookie: &mut Cookie,
) -> (r: Result<(), AuthenticationError>)
    requires
        chars@ == s@,
        start <= end <= chars.len(),
    ensures
        match cookie_entry(old(cookie)@, idx as nat, s@.subrange(start as int, end as int)) {
            Ok(c) => r is Ok && final(cookie)@ == c,
            Err(e) => r matches Err(x) && x@ == e,
        },
{
    let ghost raw = s@.subrange(start as int, end as int);
    let (lo, hi) = trim_bounds(chars, start, end);
    let ghost t = trim(raw);
    assert(t == s@.subrange(lo as int, hi as int));
    let eq = find_first(chars, lo, hi, '=');
    let j = match eq {
        None => {
            return Err(AuthenticationError::MalformedCookie(idx));
        },
        Some(j) => j,
    };
    let field = s.substring_char(lo, j);
    let value = s.substring_char(j + 1, hi);
    assert(field@ =~= t.take(j - lo));
    assert(value@ =~= t.skip(j - lo + 1));
    if str_eq(field, ACCESS_TOKEN) {
        if cookie.immich_access_token.is_some() {
            return Err(AuthenticationError::DuplicateField(ACCESS_TOKEN));
        }
        cookie.immich_access_token = Some(value.to_owned());
    } else if str_eq(field, AUTH_TYPE) {
        if cookie.immich_auth_type.is_some() {
            return Err(AuthenticationError::DuplicateField(AUTH_TYPE));
        }
        match AuthType::from_str(value) {
            Ok(a) => {
                cookie.immich_auth_type = Some(a);
            },
            Err(e) => {
                return Err(e);
            },
        }
    } else if str_eq(field, IS_AUTHENTICATED) {
        if cookie.immich_is_authenticated.is_some() {
            return Err(AuthenticationError::DuplicateField(IS_AUTHENTICATED));
        }
        match IsAuthenticated::from_str(value) {
            Ok(a) => {
                cookie.immich_is_authenticated = Some(a);
            },
            Err(e) => {
                return Err(e);
            },
        }
    } else {
        return Err(AuthenticationError::UnexpectedField(field.to_owned()));
    }
    Ok(())
}

/// Reads the text of a `Cookie` header and returns the access token it
/// carries.
pub fn parse_cookie(s: &str) -> (r: Result<String, AuthenticationError>)
    ensures
        match cookie_token(s@) {
            Ok(t) => r matches Ok(x) && x@ == t,
            Err(e) => r matches Err(x) && x@ == e,
        },
{
    let chars = str_chars(s);
    let n = chars.len();
    let mut cookie = Cookie {
        immich_access_token: None,
        immich_auth_type: None,
        immich_is_authenticated: None,
    };
    let mut start: usize = 0;
    let mut idx: usize = 0;
    let mut i: usize = 0;
    let ghost mut done: Seq<Seq<char>> = Seq::empty();
    assert(s@.take(0) =~= Seq::<char>::empty());
    assert(s@.subrange(0, 0) =~= Seq::<char>::empty());
    assert(split_on(s@.take(0), ';') =~= done.push(s@.subrange(0, 0)));
    while i < n
        invariant
            chars@ == s@,
            n == chars.len(),
            start <= i <= n,
            idx == done.len(),
            idx <= i,
            split_on(s@.take(i as int), ';') == done.push(s@.subrange(start as int, i as int)),
            scan_cookie(done) == Ok::<CookieView, AuthFailure>(cookie@),
        decreases n - i,
    {
        let ghost prev_split = split_on(s@.take(i as int), ';');
        assert(s@.take(i + 1).drop_last() =~= s@.take(i as int));
        assert(s@.take(i + 1).last() == chars@[i as int]);
        if chars[i] == ';' {
            let ghost piece = s@.subrange(start as int, i as int);
            match apply_entry(s, &chars, start, i, idx, &mut cookie) {
                Ok(()) => {},
                Err(e) => {
                    proof {
                        let full = split_on(s@, ';');
                        let p = done.push(piece);
                        assert(p.drop_last() =~= done);
                        assert(split_on(s@.take(i + 1), ';') =~= p.push(Seq::<char>::empty()));
                        lemma_split_stable(s@, i + 1, n as int);
                        assert(s@.take(n as int) =~= s@);
                        assert(p.push(Seq::<char>::empty()).subrange(0, p.len() as int) =~= p);
                        let q = full.subrange(p.len() as int, full.len() as int);
                        assert(full =~= p + q);
                        lemma_scan_error_stays(p, q);
                    }
                    return Err(e);
                },
            }
            proof {
                let p = done.push(piece);
                assert(p.drop_last() =~= done);
                done = p;
                assert(s@.subrange(i + 1, i + 1) =~= Seq::<char>::empty());
                assert(split_on(s@.take(i + 1), ';') =~= done.push(s@.subrange(i + 1, i + 1)));
            }
            idx = idx + 1;
            start = i + 1;
        } else {
            proof {
                crate::text::lemma_split_on_nonempty(s@.take(i as int), ';');
                assert(s@.subrange(start as int, i + 1) =~= s@.subrange(start as int, i as int).push(
                    chars@[i as int],
                ));
                assert(split_on(s@.take(i + 1), ';') =~= done.push(s@.subrange(start as int, i + 1)));
            }
        }
        i = i + 1;
    }
    assert(s@.take(n as int) =~= s@);
    let ghost piece = s@.subrange(start as int, n as int);
    proof {
        assert(done.push(piece).drop_last() =~= done);
        assert(split_on(s@, ';') == done.push(piece));
    }
    match apply_entry(s, &chars, start, n, idx, &mut cookie) {
        Ok(()) => {},
        Err(e) => {
            return Err(e);
        },
    }
    if cookie.immich_access_token.is_none() {
        return Err(AuthenticationError::MissingField(ACCESS_TOKEN));
    }
    if cookie.immich_auth_type.is_none() {
        return Err(AuthenticationError::MissingField(AUTH_TYPE));
    }
    if cookie.immich_is_authenticated.is_none() {
        return Err(AuthenticationError::MissingField(IS_AUTHENTICATED));
    }
    match cookie.immich_access_token {
        Some(t) => Ok(t),
        None => Err(AuthenticationError::MissingField(ACCESS_TOKEN)),
    }
}

/// Reading further characters only changes the last piece of a split: the
/// pieces before it stay as they are.
proof fn lemma_split_stable(s: Seq<char>, i: int, j: int)
    requires
        0 <= i <= j <= s.len(),
    ensures
        split_on(s.take(j), ';').len() >= split_on(s.take(i), ';').len(),
        split_on(s.take(j), ';').subrange(0, split_on(s.take(i), ';').len() - 1)
            == split_on(s.take(i), ';').subrange(0, split_on(s.take(i), ';').len() - 1),
    decreases j - i,
{
    crate::text::lemma_split_on_nonempty(s.take(i), ';');
    if i < j {
        lemma_split_stable(s, i, j - 1);
        let p = split_on(s.take(i), ';');
        let q = split_on(s.take(j - 1), ';');
        let r = split_on(s.take(j), ';');
        crate::text::lemma_split_on_nonempty(s.take(j - 1), ';');
        assert(s.take(j).drop_last() =~= s.take(j - 1));
        assert(r.subrange(0, q.len() - 1) =~= q.subrange(0, q.len() - 1));
        assert(r.subrange(0, p.len() - 1) =~= q.subrange(0, p.len() - 1));
        assert(q.subrange(0, p.len() - 1) =~= p.subrange(0, p.len() - 1));
    } else {
        assert(split_on(s.take(j), ';').subrange(0, split_on(s.take(i), ';').len() - 1)
            =~= split_on(s.take(i), ';').subrange(0, split_on(s.take(i), ';').len() - 1));
    }
}

/// `std::str::from_utf8`: the bytes read as text when they are valid
/// UTF-8, in which case the text encodes back to exactly these bytes; `None`
/// when they are not valid UTF-8.
#[verifier::external_body]
fn str_from_utf8(bytes: &[u8]) -> (r: Option<&str>)
    ensures
        match r {
            Some(s) => encode_utf8(s@) == bytes@,
            None => !valid_utf8(bytes@),
        },
{
    std::str::from_utf8(bytes).ok()
}

/// The text of a header value, when every byte of it is visible ASCII or a
/// tab, as `HeaderValue::to_str` reads it.
pub fn header_to_str(bytes: &[u8]) -> (r: Option<&str>)
    ensures
        match r {
            Some(s) => all_visible_ascii(bytes@) && s@ == decode_utf8(bytes@),
            None => !all_visible_ascii(bytes@),
        },
{
    let mut i: usize = 0;
    while i < bytes.len()
        invariant
            i <= bytes.len(),
            forall|k: int| 0 <= k < i ==> is_visible_ascii(#[trigger] bytes@[k]),
        decreases bytes.len() - i,
    {
        if !(bytes[i] >= 32 && bytes[i] < 127 || bytes[i] == 9) {
            return None;
        }
        i = i + 1;
    }
    proof {
        assert(bytes@.subrange(0, 0) =~= Seq::<u8>::empty());
        assert(valid_utf8(Seq::<u8>::empty()));
        assert forall|k: int| 0 <= 0 <= k < bytes@.len() <= bytes@.len() implies
            #[trigger] vstd::utf8::is_leading_byte_width_1(bytes@[k]) by {
            assert(is_visible_ascii(bytes@[k]));
        }
        vstd::utf8::partial_valid_utf8_extend_ascii_block(bytes@, 0, bytes@.len() as int);
        assert(bytes@.subrange(0, bytes@.len() as int) =~= bytes@);
    }
    match str_from_utf8(bytes) {
        Some(s) => {
            proof {
                vstd::utf8::encode_utf8_decode_utf8(s@);
            }
            Some(s)
        },
        None => None,
    }
}

/// The access token that a request's `Cookie` header carries; `header` is
/// the header's bytes, `None` when the request has none.
pub fn access_token(header: Option<&[u8]>) -> (r: Result<String, AuthenticationError>)
    ensures
        match header_token(
            match header {
                Some(h) => Some(h@),
                None => None,
            },
        ) {
            Ok(t) => r matches Ok(x) && x@ == t,
            Err(e) => r matches Err(x) && x@ == e,
        },
{
    let bytes = match header {
        None => {
            return Err(AuthenticationError::MissingAuthCookie);
        },
        Some(b) => b,
    };
    let text = match header_to_str(bytes) {
        None => {
            return Err(AuthenticationError::NonUtf8Cookie);
        },
        Some(t) => t,
    };
    parse_cookie(text)
}

/// The user of a registered access token; an unknown token is refused.
pub fn token_owner(db: &AccessTokenDatabase, token: String) -> (r: Result<String, AuthenticationError>)
    ensures
        match token_user(db@, token@) {
            Ok(id) => r matches Ok(x) && x@ == id,
            Err(e) => r matches Err(x) && x@ == e,
        },
{
    match db.get_blocking(token) {
        Some(id) => Ok(id),
        None => Err(AuthenticationError::UnknownAccessToken),
    }
}

/// Authenticates a request whose `Cookie` header holds `header` (`None` when
/// it has none) against the registered tokens, and returns the id of the
/// token's user.
pub fn authenticate(db: &AccessTokenDatabase, header: Option<&[u8]>) -> (r: Result<
    String,
    AuthenticationError,
>)
    ensures
        match authentication(
            db@,
            match header {
                Some(h) => Some(h@),
                None => None,
            },
        ) {
            Ok(id) => r matches Ok(x) && x@ == id,
            Err(e) => r matches Err(x) && x@ == e,
        },
{
    let token = access_token(header)?;
    token_owner(db, token)
}

/// The cookies a successful login sets, as name and value: the access token,
/// the password auth type and the authenticated flag.
pub fn login_cookies(access_token: &str) -> (r: Vec<(String, String)>)
    ensures
        r@.len() == 3,
        r@[0].0@ == ACCESS_TOKEN@,
        r@[0].1@ == access_token@,
        r@[1].0@ == AUTH_TYPE@,
        r@[1].1@ == "password"@,
        r@[2].0@ == IS_AUTHENTICATED@,
        r@[2].1@ == "true"@,
{
    let mut r: Vec<(String, String)> = Vec::new();
    r.push((ACCESS_TOKEN.to_owned(), access_token.to_owned()));
    r.push((AUTH_TYPE.to_owned(), "password".to_owned()));
    r.push((IS_AUTHENTICATED.to_owned(), "true".to_owned()));
    r
}

/// How long the login cookies last: one day, in seconds.
pub const LOGIN_COOKIE_SECONDS: i64 = 86400;

/// A cookie to set on a response: its name and value, the path it applies
/// to, and the instant it expires.
#[derive(Debug)]
pub struct SetCookie {
    pub name: String,
    pub value: String,
    pub path: String,
    pub expires: Timestamp,
}

/// The cookies a successful login sets at the instant `now`: the login's
/// cookies (see [`login_cookies`]), each for the path `/` and expiring one day
/// after `now`.
pub fn login_set_cookies(access_token: &str, now: Timestamp) -> (r: Vec<SetCookie>)
    requires
        now.second + LOGIN_COOKIE_SECONDS <= i64::MAX,
    ensures
        r@.len() == 3,
        forall|i: int|
            0 <= i < 3 ==> {
                &&& (#[trigger] r@[i]).name@ == login_cookie_pairs(access_token@)[i].0
                &&& r@[i].value@ == login_cookie_pairs(access_token@)[i].1
                &&& r@[i].path@ == "/"@
                &&& r@[i].expires == (Timestamp {
                    second: (now.second + LOGIN_COOKIE_SECONDS) as i64,
                    nanosecond: now.nanosecond,
                })
            },
{
    let expires = Timestamp { second: now.second + LOGIN_COOKIE_SECONDS, nanosecond: now.nanosecond };
    let mut r: Vec<SetCookie> = Vec::new();
    r.push(
        SetCookie {
            name: ACCESS_TOKEN.to_owned(),
            value: access_token.to_owned(),
            path: "/".to_owned(),
            expires,
        },
    );
    r.push(
        SetCookie {
            name: AUTH_TYPE.to_owned(),
            value: "password".to_owned(),
            path: "/".to_owned(),
            expires,
        },
    );
    r.push(
        SetCookie {
            name: IS_AUTHENTICATED.to_owned(),
            value: "true".to_owned(),
            path: "/".to_owned(),
            expires,
        },
    );
    r
}

/// One `name=value` entry of a request's `Cookie` header.
pub open spec fn cookie_pair(p: (Seq<char>, Seq<char>)) -> Seq<char> {
    p.0 + seq!['='] + p.1
}

/// The `Cookie` header a client sends back for the given cookies, in order,
/// separated by `; `.
pub open spec fn request_cookie_header(pairs: Seq<(Seq<char>, Seq<char>)>) -> Seq<char>
    decreases pairs.len(),
{
    if pairs.len() == 0 {
        Seq::empty()
    } else if pairs.len() == 1 {
        cookie_pair(pairs[0])
    } else {
        request_cookie_header(pairs.drop_last()) + seq![';', ' '] + cookie_pair(pairs.last())
    }
}

/// The cookies of a login, as name and value, for the access token `token`.
pub open spec fn login_cookie_pairs(token: Seq<char>) -> Seq<(Seq<char>, Seq<char>)> {
    seq![(ACCESS_TOKEN@, token), (AUTH_TYPE@, "password"@), (IS_AUTHENTICATED@, "true"@)]
}

/// The login's cookies in the order `i`, `j`, `k`: positions of
/// [`login_cookie_pairs`], each of 0, 1 and 2 once (a login sets them in the
/// order 0, 1, 2; a client may send them back in any order).
pub open spec fn login_cookies_in_order(token: Seq<char>, i: int, j: int, k: int) -> Seq<
    (Seq<char>, Seq<char>),
> {
    seq![login_cookie_pairs(token)[i], login_cookie_pairs(token)[j], login_cookie_pairs(token)[k]]
}

/// `i`, `j`, `k` are 0, 1 and 2 in some order.
pub open spec fn is_order(i: int, j: int, k: int) -> bool {
    &&& 0 <= i < 3
    &&& 0 <= j < 3
    &&& 0 <= k < 3
    &&& i != j
    &&& j != k
    &&& i != k
}

/// The fields read so far once the `n`-th login cookie is read.
spec fn with_login_field(c: CookieView, n: int, token: Seq<char>) -> CookieView {
    if n == 0 {
        CookieView { access_token: Some(token), ..c }
    } else if n == 1 {
        CookieView { auth_type: Some(AuthType::Password), ..c }
    } else {
        CookieView { is_authenticated: Some(IsAuthenticated::True), ..c }
    }
}

/// Whether the field of the `n`-th login cookie is read already.
spec fn has_login_field(c: CookieView, n: int) -> bool {
    if n == 0 {
        c.access_token is Some
    } else if n == 1 {
        c.auth_type is Some
    } else {
        c.is_authenticated is Some
    }
}

/// A property of every character of `s`.
spec fn all_chars(s: Seq<char>, f: spec_fn(char) -> bool) -> bool {
    forall|k: int| 0 <= k < s.len() ==> f(#[trigger] s[k])
}

proof fn lemma_all_chars_concat(x: Seq<char>, y: Seq<char>, f: spec_fn(char) -> bool)
    requires
        all_chars(x, f),
        all_chars(y, f),
    ensures
        all_chars(x + y, f),
{
    assert forall|k: int| 0 <= k < (x + y).len() implies f(#[trigger] (x + y)[k]) by {
        if k < x.len() {
            assert((x + y)[k] == x[k]);
        } else {
            assert((x + y)[k] == y[k - x.len()]);
        }
    }
}

proof fn lemma_all_chars_one(c: char, f: spec_fn(char) -> bool)
    requires
        f(c),
    ensures
        all_chars(seq![c], f),
{
}

/// The three cookies `q` as a `Cookie` header, written out.
proof fn lemma_header_of_three(q: Seq<(Seq<char>, Seq<char>)>)
    requires
        q.len() == 3,
    ensures
        request_cookie_header(q) == cookie_pair(q[0]) + seq![';'] + (seq![' '] + cookie_pair(q[1]))
            + seq![';'] + (seq![' '] + cookie_pair(q[2])),
{
    let a = cookie_pair(q[0]);
    let b = cookie_pair(q[1]);
    let c = cookie_pair(q[2]);
    let q2 = q.drop_last();
    assert(q2.drop_last() =~= seq![q[0]]);
    assert(q2 =~= seq![q[0], q[1]]);
    assert(request_cookie_header(q2.drop_last()) == a);
    assert(request_cookie_header(q2) == a + seq![';', ' '] + b);
    assert(request_cookie_header(q) == a + seq![';', ' '] + b + seq![';', ' '] + c);
    assert(a + seq![';', ' '] + b + seq![';', ' '] + c =~= a + seq![';'] + (seq![' '] + b) + seq![
        ';',
    ] + (seq![' '] + c));
}

/// Every character of the login cookie `n`, as `name=value`, has the
/// property `f` when those of the token, of `=` and of the fixed names and
/// values have it.
proof fn lemma_login_pair_chars(token: Seq<char>, n: int, f: spec_fn(char) -> bool)
    requires
        0 <= n < 3,
        all_chars(token, f),
        f('='),
        all_chars(ACCESS_TOKEN@, f),
        all_chars(AUTH_TYPE@, f),
        all_chars(IS_AUTHENTICATED@, f),
        all_chars("password"@, f),
        all_chars("true"@, f),
    ensures
        all_chars(cookie_pair(login_cookie_pairs(token)[n]), f),
{
    let p = login_cookie_pairs(token)[n];
    lemma_all_chars_one('=', f);
    lemma_all_chars_concat(p.0, seq!['='], f);
    lemma_all_chars_concat(p.0 + seq!['='], p.1, f);
}

/// Reading the login cookie `n`, after whitespace `lead`, into fields where
/// it is not read yet, fills its field.
proof fn lemma_login_entry(c: CookieView, idx: nat, lead: Seq<char>, token: Seq<char>, n: int)
    requires
        0 <= n < 3,
        !has_login_field(c, n),
        forall|k: int| 0 <= k < lead.len() ==> is_whitespace(#[trigger] lead[k]),
        token.len() > 0 ==> !is_whitespace(token.last()),
    ensures
        cookie_entry(c, idx, lead + cookie_pair(login_cookie_pairs(token)[n])) == Ok::<
            CookieView,
            AuthFailure,
        >(with_login_field(c, n, token)),
{
    reveal_strlit("immich_access_token");
    reveal_strlit("immich_auth_type");
    reveal_strlit("immich_is_authenticated");
    reveal_strlit("password");
    reveal_strlit("true");
    let p = login_cookie_pairs(token)[n];
    lemma_entry_reads_back(lead, p.0, p.1);
    assert(lead + cookie_pair(p) =~= lead + p.0 + seq!['='] + p.1);
    assert(ACCESS_TOKEN@ != AUTH_TYPE@) by {
        assert(ACCESS_TOKEN@.len() != AUTH_TYPE@.len());
    }
    assert(ACCESS_TOKEN@ != IS_AUTHENTICATED@) by {
        assert(ACCESS_TOKEN@.len() != IS_AUTHENTICATED@.len());
    }
    assert(AUTH_TYPE@ != IS_AUTHENTICATED@) by {
        assert(AUTH_TYPE@.len() != IS_AUTHENTICATED@.len());
    }
}

/// The cookies a login sets carry its access token back, in whatever order
/// the client sends them: sent as a `Cookie` header, they read as that
/// token. The token must not contain `;` or end in whitespace (a token from
/// login never does).
pub proof fn lemma_login_cookies_read_back(token: Seq<char>, i: int, j: int, k: int)
    requires
        is_order(i, j, k),
        forall|n: int| 0 <= n < token.len() ==> #[trigger] token[n] != ';',
        token.len() > 0 ==> !is_whitespace(token.last()),
    ensures
        cookie_token(request_cookie_header(login_cookies_in_order(token, i, j, k))) == Ok::<
            Seq<char>,
            AuthFailure,
        >(token),
{
    reveal_strlit("immich_access_token");
    reveal_strlit("immich_auth_type");
    reveal_strlit("immich_is_authenticated");
    reveal_strlit("password");
    reveal_strlit("true");
    let q = login_cookies_in_order(token, i, j, k);
    let a = cookie_pair(q[0]);
    let b1 = seq![' '] + cookie_pair(q[1]);
    let c1 = seq![' '] + cookie_pair(q[2]);
    let h = request_cookie_header(q);
    lemma_header_of_three(q);
    let x = a + seq![';'] + b1;
    assert(h == x + seq![';'] + c1);
    let no_semicolon = |ch: char| ch != ';';
    lemma_login_pair_chars(token, i, no_semicolon);
    lemma_login_pair_chars(token, j, no_semicolon);
    lemma_login_pair_chars(token, k, no_semicolon);
    lemma_all_chars_one(' ', no_semicolon);
    lemma_all_chars_concat(seq![' '], cookie_pair(q[1]), no_semicolon);
    lemma_all_chars_concat(seq![' '], cookie_pair(q[2]), no_semicolon);
    assert(split_on(h, ';') == seq![a, b1, c1]) by {
        lemma_split_concat(x, c1, ';');
        lemma_split_concat(a, b1, ';');
        lemma_split_single(a, ';');
        lemma_split_single(b1, ';');
        lemma_split_single(c1, ';');
        assert(seq![a] + seq![b1] + seq![c1] =~= seq![a, b1, c1]);
    }
    let e1 = with_login_field(empty_cookie(), i, token);
    let e2 = with_login_field(e1, j, token);
    let e3 = with_login_field(e2, k, token);
    assert(a =~= Seq::<char>::empty() + cookie_pair(login_cookie_pairs(token)[i]));
    lemma_login_entry(empty_cookie(), 0, Seq::empty(), token, i);
    lemma_login_entry(e1, 1, seq![' '], token, j);
    lemma_login_entry(e2, 2, seq![' '], token, k);
    assert(seq![a].drop_last() =~= Seq::<Seq<char>>::empty());
    assert(seq![a, b1].drop_last() =~= seq![a]);
    assert(seq![a, b1, c1].drop_last() =~= seq![a, b1]);
    assert(scan_cookie(Seq::<Seq<char>>::empty()) == Ok::<CookieView, AuthFailure>(empty_cookie()));
    assert(seq![a].last() == a);
    assert(scan_cookie(seq![a]) == Ok::<CookieView, AuthFailure>(e1));
    assert(scan_cookie(seq![a, b1]) == Ok::<CookieView, AuthFailure>(e2));
    assert(scan_cookie(seq![a, b1, c1]) == Ok::<CookieView, AuthFailure>(e3));
}

/// A request that sends back the cookies a login set, in any order, is
/// authenticated as the token's user exactly when the token is registered,
/// and refused as an unknown token otherwise. The token must be visible
/// ASCII without `;` and must not end in a space or tab (a token from login
/// is all hexadecimal digits and hyphens).
pub proof fn lemma_login_cookies_authenticate(
    tokens: Map<Seq<char>, Seq<char>>,
    token: Seq<char>,
    i: int,
    j: int,
    k: int,
)
    requires
        is_order(i, j, k),
        forall|n: int| 0 <= n < token.len() ==> #[trigger] token[n] != ';',
        token.len() > 0 ==> !is_whitespace(token.last()),
        forall|n: int| 0 <= n < token.len() ==> is_visible_ascii_char(#[trigger] token[n]),
    ensures
        authentication(
            tokens,
            Some(encode_utf8(request_cookie_header(login_cookies_in_order(token, i, j, k)))),
        ) == if tokens.contains_key(token) {
            Ok::<Seq<char>, AuthFailure>(tokens[token])
        } else {
            Err(AuthFailure::UnknownAccessToken)
        },
{
    lemma_login_cookies_read_back(token, i, j, k);
    reveal_strlit("immich_access_token");
    reveal_strlit("immich_auth_type");
    reveal_strlit("immich_is_authenticated");
    reveal_strlit("password");
    reveal_strlit("true");
    let q = login_cookies_in_order(token, i, j, k);
    let h = request_cookie_header(q);
    lemma_header_of_three(q);
    let visible = |ch: char| is_visible_ascii_char(ch);
    assert(all_chars(token, visible));
    lemma_login_pair_chars(token, i, visible);
    lemma_login_pair_chars(token, j, visible);
    lemma_login_pair_chars(token, k, visible);
    lemma_all_chars_one(' ', visible);
    lemma_all_chars_one(';', visible);
    let a = cookie_pair(q[0]);
    let b1 = seq![' '] + cookie_pair(q[1]);
    let c1 = seq![' '] + cookie_pair(q[2]);
    lemma_all_chars_concat(seq![' '], cookie_pair(q[1]), visible);
    lemma_all_chars_concat(seq![' '], cookie_pair(q[2]), visible);
    lemma_all_chars_concat(a, seq![';'], visible);
    lemma_all_chars_concat(a + seq![';'], b1, visible);
    lemma_all_chars_concat(a + seq![';'] + b1, seq![';'], visible);
    lemma_all_chars_concat(a + seq![';'] + b1 + seq![';'], c1, visible);
    assert(all_chars(h, visible));
    assert(vstd::utf8::is_ascii_chars(h)) by {
        assert forall|n: int| 0 <= n < h.len() implies '\0' <= #[trigger] h[n] <= '\u{7f}' by {
            assert(visible(h[n]));
        }
    }
    vstd::utf8::is_ascii_chars_encode_utf8(h);
    vstd::utf8::encode_utf8_decode_utf8(h);
    let bytes = encode_utf8(h);
    assert forall|n: int| 0 <= n < bytes.len() implies is_visible_ascii(#[trigger] bytes[n]) by {
        assert(bytes[n] == h[n] as u8);
        assert(visible(h[n]));
    }
}

/// After a login's token is registered for a user, a request that sends
/// back the login's cookies, in any order, is authenticated as that user,
/// whatever other tokens are registered.
pub proof fn lemma_registered_login_authenticates(
    tokens: Map<Seq<char>, Seq<char>>,
    token: Seq<char>,
    id: Seq<char>,
    i: int,
    j: int,
    k: int,
)
    requires
        is_order(i, j, k),
        forall|n: int| 0 <= n < token.len() ==> #[trigger] token[n] != ';',
        token.len() > 0 ==> !is_whitespace(token.last()),
        forall|n: int| 0 <= n < token.len() ==> is_visible_ascii_char(#[trigger] token[n]),
    ensures
        authentication(
            tokens.insert(token, id),
            Some(encode_utf8(request_cookie_header(login_cookies_in_order(token, i, j, k)))),
        ) == Ok::<Seq<char>, AuthFailure>(id),
{
    lemma_login_cookies_authenticate(tokens.insert(token, id), token, i, j, k);
}

/// The access token of a login (a hyphenated UUID) meets what
/// [`lemma_registered_login_authenticates`] asks: once registered for a user,
/// the login's cookies, sent back in any order, authenticate that user.
pub proof fn lemma_login_token_authenticates(
    tokens: Map<Seq<char>, Seq<char>>,
    token: Seq<char>,
    id: Seq<char>,
    i: int,
    j: int,
    k: int,
)
    requires
        is_order(i, j, k),
        forall|n: int| 0 <= n < token.len() ==> is_uuid_text_char(#[trigger] token[n]),
    ensures
        authentication(
            tokens.insert(token, id),
            Some(encode_utf8(request_cookie_header(login_cookies_in_order(token, i, j, k)))),
        ) == Ok::<Seq<char>, AuthFailure>(id),
{
    assert forall|n: int| 0 <= n < token.len() implies #[trigger] token[n] != ';'
        && is_visible_ascii_char(token[n]) by {
        assert(is_uuid_text_char(token[n]));
    }
    if token.len() > 0 {
        assert(is_uuid_text_char(token[token.len() - 1]));
    }
    lemma_registered_login_authenticates(tokens, token, id, i, j, k);
}

/// An entry of a `Cookie` header, trimmed and split at its first `=`.
pub open spec fn entry_parts(e: Seq<char>) -> Option<(Seq<char>, Seq<char>)> {
    split_once(trim(e), '=')
}

/// An entry the check accepts on its own: the access token with any value,
/// the auth type with `password`, or the authenticated flag with `true`.
pub open spec fn accepted_entry(e: Seq<char>) -> bool {
    match entry_parts(e) {
        None => false,
        Some((f, v)) => f == ACCESS_TOKEN@ || (f == AUTH_TYPE@ && v == "password"@) || (f
            == IS_AUTHENTICATED@ && v == "true"@),
    }
}

/// How many of the entries name the field `name`.
pub open spec fn field_count(es: Seq<Seq<char>>, name: Seq<char>) -> nat
    decreases es.len(),
{
    if es.len() == 0 {
        0
    } else {
        field_count(es.drop_last(), name) + match entry_parts(es.last()) {
            Some((f, _)) => if f == name {
                1nat
            } else {
                0nat
            },
            None => 0nat,
        }
    }
}

/// The value of the last entry that names the access token.
pub open spec fn token_entry_value(es: Seq<Seq<char>>) -> Seq<char>
    decreases es.len(),
{
    if es.len() == 0 {
        Seq::empty()
    } else {
        match entry_parts(es.last()) {
            Some((f, v)) => if f == ACCESS_TOKEN@ {
                v
            } else {
                token_entry_value(es.drop_last())
            },
            None => token_entry_value(es.drop_last()),
        }
    }
}

/// The entries are all accepted and name each field at most once.
pub open spec fn scan_succeeds(es: Seq<Seq<char>>) -> bool {
    &&& forall|n: int| 0 <= n < es.len() ==> accepted_entry(#[trigger] es[n])
    &&& field_count(es, ACCESS_TOKEN@) <= 1
    &&& field_count(es, AUTH_TYPE@) <= 1
    &&& field_count(es, IS_AUTHENTICATED@) <= 1
}

/// The scan of the entries succeeds exactly when they are all accepted and
/// name each field at most once; the fields it fills are those named, the
/// access token with the value of its entry.
proof fn lemma_scan_characterized(es: Seq<Seq<char>>)
    ensures
        scan_cookie(es) is Ok <==> scan_succeeds(es),
        scan_cookie(es) matches Ok(c) ==> {
            &&& (c.access_token is Some <==> field_count(es, ACCESS_TOKEN@) == 1)
            &&& (c.access_token is Some ==> c.access_token->0 == token_entry_value(es))
            &&& (c.auth_type is Some <==> field_count(es, AUTH_TYPE@) == 1)
            &&& (c.is_authenticated is Some <==> field_count(es, IS_AUTHENTICATED@) == 1)
        },
    decreases es.len(),
{
    reveal_strlit("immich_access_token");
    reveal_strlit("immich_auth_type");
    reveal_strlit("immich_is_authenticated");
    reveal_strlit("password");
    reveal_strlit("true");
    assert(ACCESS_TOKEN@ != AUTH_TYPE@) by {
        assert(ACCESS_TOKEN@.len() != AUTH_TYPE@.len());
    }
    assert(ACCESS_TOKEN@ != IS_AUTHENTICATED@) by {
        assert(ACCESS_TOKEN@.len() != IS_AUTHENTICATED@.len());
    }
    assert(AUTH_TYPE@ != IS_AUTHENTICATED@) by {
        assert(AUTH_TYPE@.len() != IS_AUTHENTICATED@.len());
    }
    if es.len() > 0 {
        let p = es.drop_last();
        let e = es.last();
        lemma_scan_characterized(p);
        assert forall|n: int| 0 <= n < p.len() implies p[n] == es[n] by {}
        if !scan_succeeds(p) {
            if !(forall|n: int| 0 <= n < p.len() ==> accepted_entry(#[trigger] p[n])) {
                let n = choose|n: int| 0 <= n < p.len() && !accepted_entry(#[trigger] p[n]);
                assert(es[n] == p[n]);
            }
        }
        if scan_succeeds(p) && accepted_entry(e) {
            assert forall|n: int| 0 <= n < es.len() implies accepted_entry(#[trigger] es[n]) by {
                if n < p.len() {
                    assert(es[n] == p[n]);
                }
            }
        }
        if scan_succeeds(p) && !accepted_entry(e) {
            assert(!accepted_entry(es[es.len() - 1]));
        }
    }
}

/// Access control: a request is let through, as the user `id`, exactly when
/// its `Cookie` header is visible ASCII, every `;`-separated entry, trimmed
/// and split at its first `=`, names one of the three login cookies (the
/// auth type with the value `password`, the authenticated flag with the
/// value `true`), each of the three names comes exactly once, and the access
/// token's value is registered for `id`.
pub proof fn lemma_access_control(tokens: Map<Seq<char>, Seq<char>>, bytes: Seq<u8>, id: Seq<char>)
    ensures
        authentication(tokens, Some(bytes)) == Ok::<Seq<char>, AuthFailure>(id) <==> {
            let es = split_on(decode_utf8(bytes), ';');
            &&& all_visible_ascii(bytes)
            &&& forall|n: int| 0 <= n < es.len() ==> accepted_entry(#[trigger] es[n])
            &&& field_count(es, ACCESS_TOKEN@) == 1
            &&& field_count(es, AUTH_TYPE@) == 1
            &&& field_count(es, IS_AUTHENTICATED@) == 1
            &&& tokens.contains_key(token_entry_value(es))
            &&& tokens[token_entry_value(es)] == id
        },
{
    lemma_scan_characterized(split_on(decode_utf8(bytes), ';'));
}

} // verus!
