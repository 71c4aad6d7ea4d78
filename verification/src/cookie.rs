//! The refresh-token cookie: its attributes, how it is written and cleared,
//! and how a request's `Cookie` header is searched for it.

use vstd::prelude::*;
use crate::number::{int_decimal, parsed_bool, parsed_i64, trunc_div};
use crate::text::{lowered, push_str, seq_starts_with, trimmed};

verus! {

/// Whether the cookie carries `Secure`: the `COOKIE_SECURE` setting read as a
/// `bool`, on by default and whenever the setting is not `true` or `false`.
pub open spec fn secure_flag(setting: Option<Seq<char>>) -> bool {
    match setting {
        Some(v) => match parsed_bool(v) {
            Some(b) => b,
            None => true,
        },
        None => true,
    }
}

/// The `SameSite` attribute chosen by the `COOKIE_SAME_SITE` setting, compared
/// without regard to ASCII case; `Strict` unless it says `lax` or `none`.
pub open spec fn same_site_value(setting: Option<Seq<char>>) -> Seq<char> {
    match setting {
        Some(v) => if lowered(v) == "lax"@ {
            "Lax"@
        } else if lowered(v) == "none"@ {
            "None"@
        } else {
            "Strict"@
        },
        None => "Strict"@,
    }
}

/// The attributes that follow the cookie's value.
pub open spec fn cookie_suffix(max_age: i64, secure: bool, same_site: Seq<char>) -> Seq<char> {
    "; HttpOnly; Path=/; Max-Age="@ + int_decimal(max_age as int) + "; SameSite="@ + same_site
        + if secure { "; Secure"@ } else { Seq::empty() }
}

/// Where the cookie settings come from: the raw values of `COOKIE_SECURE` and
/// `COOKIE_SAME_SITE`, `None` when unset.
pub struct CookieSettings {
    pub secure: Option<String>,
    pub same_site: Option<String>,
}

pub open spec fn opt_view(o: Option<String>) -> Option<Seq<char>> {
    match o {
        Some(s) => Some(s@),
        None => None,
    }
}

/// The refresh cookie's attribute text under `settings`.
pub open spec fn settings_suffix(max_age: i64, settings: CookieSettings) -> Seq<char> {
    cookie_suffix(
        max_age,
        secure_flag(opt_view(settings.secure)),
        same_site_value(opt_view(settings.same_site)),
    )
}

/// Whether the refresh cookie is marked `Secure`.
pub fn cookie_secure(setting: Option<&str>) -> (res: bool)
    ensures
        res == secure_flag(match setting { Some(v) => Some(v@), None => None }),
{
    match setting {
        Some(v) => match crate::number::parse_bool(v) {
            Some(b) => b,
            None => true,
        },
        None => true,
    }
}

/// The `SameSite` attribute of the refresh cookie.
pub fn cookie_same_site(setting: Option<&str>) -> (res: &'static str)
    ensures
        res@ == same_site_value(match setting { Some(v) => Some(v@), None => None }),
{
    match setting {
        Some(v) => {
            let chars = crate::text::chars_of(v);
            let low = crate::text::lower_chars(chars.as_slice());
            let lax = crate::text::chars_of("lax");
            let none = crate::text::chars_of("none");
            if crate::text::chars_eq(low.as_slice(), lax.as_slice()) {
                "Lax"
            } else if crate::text::chars_eq(low.as_slice(), none.as_slice()) {
                "None"
            } else {
                "Strict"
            }
        },
        None => "Strict",
    }
}

fn opt_str(o: &Option<String>) -> (r: Option<&str>)
    ensures
        match r { Some(v) => Some(v@), None => None::<Seq<char>> } == opt_view(*o),
{
    match o {
        Some(s) => Some(s.as_str()),
        None => None,
    }
}

/// The attributes of the refresh cookie: `HttpOnly`, path `/`, the given
/// `Max-Age`, the `SameSite` setting and, unless switched off, `Secure`.
pub fn refresh_cookie_suffix(max_age: i64, settings: &CookieSettings) -> (s: String)
    ensures
        s@ == settings_suffix(max_age, *settings),
{
    let secure = cookie_secure(opt_str(&settings.secure));
    let same_site = cookie_same_site(opt_str(&settings.same_site));
    let mut s = String::new();
    push_str(&mut s, "; HttpOnly; Path=/; Max-Age=");
    let mut digits: Vec<char> = Vec::new();
    crate::number::push_i64_decimal(&mut digits, max_age);
    crate::text::push_chars(&mut s, digits.as_slice());
    push_str(&mut s, "; SameSite=");
    push_str(&mut s, same_site);
    if secure {
        push_str(&mut s, "; Secure");
    }
    assert(s@ =~= settings_suffix(max_age, *settings));
    s
}

/// The `Set-Cookie` value that hands `refresh_token` to the browser for
/// `max_age` seconds.
pub fn build_refresh_cookie(refresh_token: &str, max_age: i64, settings: &CookieSettings) -> (s:
    String)
    ensures
        s@ == "refreshToken="@ + refresh_token@ + settings_suffix(max_age, *settings),
{
    let mut s = String::new();
    push_str(&mut s, "refreshToken=");
    push_str(&mut s, refresh_token);
    let suffix = refresh_cookie_suffix(max_age, settings);
    push_str(&mut s, suffix.as_str());
    s
}

/// The `Set-Cookie` value that removes the refresh cookie: an empty value
/// with `Max-Age=0`.
pub fn clear_refresh_cookie(settings: &CookieSettings) -> (s: String)
    ensures
        s@ == "refreshToken="@ + settings_suffix(0, *settings),
{
    let mut s = String::new();
    push_str(&mut s, "refreshToken=");
    let suffix = refresh_cookie_suffix(0, settings);
    push_str(&mut s, suffix.as_str());
    s
}

/// Default refresh-token lifetime in milliseconds (seven days).
pub const DEFAULT_REFRESH_EXPIRATION_MS: i64 = 604800000;

/// The refresh-token lifetime in milliseconds: the `JWT_REFRESH_EXPIRATION`
/// setting read as an `i64`, or seven days when it is unset or unreadable.
pub open spec fn refresh_expiration_ms(setting: Option<Seq<char>>) -> i64 {
    match setting {
        Some(v) => match parsed_i64(v) {
            Some(n) => n,
            None => DEFAULT_REFRESH_EXPIRATION_MS,
        },
        None => DEFAULT_REFRESH_EXPIRATION_MS,
    }
}

/// `Max-Age` of the refresh cookie: the refresh lifetime in whole seconds.
pub fn refresh_max_age(setting: Option<&str>) -> (age: i64)
    ensures
        age as int == trunc_div(
            refresh_expiration_ms(match setting { Some(v) => Some(v@), None => None }) as int,
            1000,
        ),
{
    let ms = match setting {
        Some(v) => match crate::number::parse_i64(v) {
            Some(n) => n,
            None => DEFAULT_REFRESH_EXPIRATION_MS,
        },
        None => DEFAULT_REFRESH_EXPIRATION_MS,
    };
    crate::number::div_trunc(ms, 1000)
}

/// Position of the first `;` in `s`, or its length when there is none.
pub open spec fn first_semicolon(s: Seq<char>) -> int
    decreases s.len(),
{
    if s.len() == 0 {
        0
    } else if s[0] == ';' {
        0
    } else {
        1 + first_semicolon(s.drop_first())
    }
}

/// The value of the first `;`-separated cookie whose trimmed text starts with
/// `refreshToken=`, the rest of that trimmed text.
pub open spec fn cookie_refresh_token(s: Seq<char>) -> Option<Seq<char>>
    decreases s.len(),
{
    let i = first_semicolon(s);
    let piece = trimmed(s.take(i));
    if seq_starts_with(piece, "refreshToken="@) {
        Some(piece.skip("refreshToken="@.len() as int))
    } else if i >= s.len() {
        None
    } else {
        proof {
            lemma_first_semicolon(s);
        }
        cookie_refresh_token(s.skip(i + 1))
    }
}

pub proof fn lemma_first_semicolon(s: Seq<char>)
    ensures
        0 <= first_semicolon(s) <= s.len(),
        first_semicolon(s) < s.len() ==> s[first_semicolon(s)] == ';',
        forall|j: int| 0 <= j < first_semicolon(s) ==> s[j] != ';',
    decreases s.len(),
{
    if s.len() > 0 && s[0] != ';' {
        lemma_first_semicolon(s.drop_first());
        assert forall|j: int| 0 <= j < first_semicolon(s) implies s[j] != ';' by {
            if j > 0 {
                assert(s[j] == s.drop_first()[j - 1]);
            }
        }
    }
}

/// The refresh token carried by a `Cookie` header: the value of the first
/// `;`-separated cookie whose trimmed text starts with `refreshToken=`.
pub fn refresh_token_from_cookies(cookies: &str) -> (res: Option<String>)
    ensures
        match res {
            Some(t) => cookie_refresh_token(cookies@) == Some(t@),
            None => cookie_refresh_token(cookies@) is None,
        },
{
    let v = crate::text::chars_of(cookies);
    let key = crate::text::chars_of("refreshToken=");
    let mut start: usize = 0;
    assert(v@.skip(0) =~= v@);
    while start <= v.len()
        invariant
            key@ == "refreshToken="@,
            v@ == cookies@,
            start <= v.len() + 1,
            start <= v.len() ==> cookie_refresh_token(v@) == cookie_refresh_token(v@.skip(start as int)),
            start > v.len() ==> cookie_refresh_token(v@) is None,
        decreases v.len() + 1 - start,
    {
        let ghost rest = v@.skip(start as int);
        let mut end = start;
        while end < v.len() && v[end] != ';'
            invariant
                start <= end <= v.len(),
                forall|j: int| start <= j < end ==> v@[j] != ';',
            decreases v.len() - end,
        {
            end = end + 1;
        }
        proof {
            lemma_first_semicolon(rest);
            let k = (end - start) as int;
            assert forall|j: int| 0 <= j < k implies rest[j] != ';' by {
                assert(rest[j] == v@[start + j]);
            }
            if k < rest.len() {
                assert(rest[k] == v@[end as int]);
            }
            assert(first_semicolon(rest) == k);
        }
        let piece_raw = crate::text::chars_slice(v.as_slice(), start, end);
        assert(piece_raw@ =~= rest.take((end - start) as int));
        let piece = crate::text::trim_chars(piece_raw.as_slice());
        if key.len() <= piece.len() && crate::text::chars_eq(
            crate::text::chars_slice(piece.as_slice(), 0, key.len()).as_slice(),
            key.as_slice(),
        ) {
            let value = crate::text::chars_slice(piece.as_slice(), key.len(), piece.len());
            assert(key@.len() == "refreshToken="@.len());
            assert(piece@.subrange(0, key.len() as int) =~= key@);
            assert(seq_starts_with(piece@, "refreshToken="@));
            assert(value@ =~= piece@.skip("refreshToken="@.len() as int));
            assert(cookie_refresh_token(rest) == Some(value@));
            return Some(crate::text::string_of(value.as_slice()));
        }
        assert(!seq_starts_with(piece@, "refreshToken="@)) by {
            if seq_starts_with(piece@, key@) {
                assert(piece@.subrange(0, key.len() as int) =~= key@);
            }
        }
        if end == v.len() {
            return None;
        }
        assert(rest.skip((end - start) + 1) =~= v@.skip(end + 1));
        start = end + 1;
    }
    None
}

} // verus!
