use vstd::prelude::*;

verus! {

/// The name of the cookie that carries the session token.
pub const AUTH_COOKIE_NAME: &'static str = "access_token";

/// The attributes of the session cookie as the service sets them; the HTTP layer renders
/// them as a `Set-Cookie` header.
#[derive(Debug, Clone, PartialEq, Eq)]
pub struct AuthCookie {
    pub name: String,
    pub value: String,
    pub http_only: bool,
    /// `SameSite=None`.
    pub same_site_none: bool,
    pub path: String,
    pub secure: bool,
    /// Set to expire at once, so that the browser drops it.
    pub removal: bool,
}

/// A character's code with ASCII capitals lowered.
pub open spec fn ascii_lower(c: char) -> u32 {
    if 65 <= (c as u32) <= 90 {
        (c as u32 + 32) as u32
    } else {
        c as u32
    }
}

/// Equal up to the case of ASCII letters, as `str::eq_ignore_ascii_case` compares.
pub open spec fn eq_ignore_ascii_case_spec(a: Seq<char>, b: Seq<char>) -> bool {
    a.len() == b.len() && forall|i: int| 0 <= i < a.len() ==> ascii_lower(a[i]) == ascii_lower(b[i])
}

fn lower_code(c: char) -> (v: u32)
    ensures
        v == ascii_lower(c),
{
    let v = c as u32;
    if 65 <= v && v <= 90 {
        v + 32
    } else {
        v
    }
}

/// Whether two texts are equal up to the case of ASCII letters.
pub fn eq_ignore_ascii_case(a: &str, b: &str) -> (eq: bool)
    ensures
        eq == eq_ignore_ascii_case_spec(a@, b@),
{
    let n = a.unicode_len();
    if n != b.unicode_len() {
        return false;
    }
    let mut i: usize = 0;
    while i < n
        invariant
            n == a@.len(),
            n == b@.len(),
            i <= n,
            forall|j: int| 0 <= j < i ==> ascii_lower(a@[j]) == ascii_lower(b@[j]),
        decreases n - i,
    {
        if lower_code(a.get_char(i)) != lower_code(b.get_char(i)) {
            return false;
        }
        i = i + 1;
    }
    true
}

/// Whether the `COOKIE_SECURE` setting asks for secure cookies: it is "true" in any case;
/// an unset variable counts as "false".
pub open spec fn secure_requested(cookie_secure: Option<Seq<char>>) -> bool {
    match cookie_secure {
        Some(v) => eq_ignore_ascii_case_spec(v, "true"@),
        None => false,
    }
}

/// The session cookie for a token: HTTP-only, `SameSite=None`, for every path, and secure
/// when the `COOKIE_SECURE` setting (passed in, `None` when unset) says "true".
pub fn build_auth_cookie(token: &str, cookie_secure: Option<&str>) -> (c: AuthCookie)
    ensures
        c.name@ == AUTH_COOKIE_NAME@,
        c.value@ == token@,
        c.http_only,
        c.same_site_none,
        c.path@ == "/"@,
        c.secure == secure_requested(
            match cookie_secure {
                Some(v) => Some(v@),
                None => None,
            },
        ),
        !c.removal,
{
    let secure = match cookie_secure {
        Some(v) => eq_ignore_ascii_case(v, "true"),
        None => false,
    };
    AuthCookie {
        name: AUTH_COOKIE_NAME.to_owned(),
        value: token.to_owned(),
        http_only: true,
        same_site_none: true,
        path: "/".to_owned(),
        secure,
        removal: false,
    }
}

/// The cookie that logs a browser out: the session cookie emptied and set to expire.
pub fn clear_auth_cookie() -> (c: AuthCookie)
    ensures
        c.name@ == AUTH_COOKIE_NAME@,
        c.value@ == ""@,
        c.http_only,
        c.same_site_none,
        c.path@ == "/"@,
        !c.secure,
        c.removal,
{
    AuthCookie {
        name: AUTH_COOKIE_NAME.to_owned(),
        value: "".to_owned(),
        http_only: true,
        same_site_none: true,
        path: "/".to_owned(),
        secure: false,
        removal: true,
    }
}

/// The cookie that logs out replaces the session cookie: the browser matches cookies by
/// name and path, and the two share both; the replacement is empty and expires at once.
pub proof fn law_clearing_replaces_session_cookie(session: AuthCookie, cleared: AuthCookie, token: Seq<char>)
    requires
        session.name@ == AUTH_COOKIE_NAME@,
        session.path@ == "/"@,
        session.value@ == token,
        cleared.name@ == AUTH_COOKIE_NAME@,
        cleared.value@ == ""@,
        cleared.path@ == "/"@,
        cleared.removal,
    ensures
        cleared.name@ == session.name@,
        cleared.path@ == session.path@,
        cleared.value@.len() == 0,
        cleared.removal,
{
    reveal_strlit("");
}

} // verus!
