//! Validation of the environment-supplied process configuration, and the
//! decision of the informational root route.

use vstd::prelude::*;
use crate::text::str_eq;

verus! {

/// Process configuration once validated: the mandatory shared secret,
/// whether the informational redirect page is exposed, and the optional
/// external token-validation URL, kept as plain text.
#[derive(Debug)]
pub struct Config {
    pub password: String,
    pub show_github_page: bool,
    pub auth_url: Option<String>,
}

/// A startup-fatal configuration fault: the process refuses to start rather
/// than run half-configured.
#[derive(Clone, Copy, PartialEq, Eq, Structural, Debug)]
pub enum ConfigError {
    MissingSecret,
}

/// Whether the informational redirect page is exposed. The environment's
/// word for yes is `true`, `t` or `1`; an absent setting means yes.
pub fn homepage_flag(v: Option<&str>) -> (r: bool)
    ensures
        v is None ==> r,
        v matches Some(s) ==> r == (s@ == "true"@ || s@ == "t"@ || s@ == "1"@),
{
    match v {
        None => true,
        Some(s) => str_eq(s, "true") || str_eq(s, "t") || str_eq(s, "1"),
    }
}

/// Validate the environment-supplied settings. The shared secret is
/// mandatory: without it the configuration is refused. The other settings
/// carry over, with the homepage flag read as [`homepage_flag`] reads it.
pub fn build_config(
    password: Option<String>,
    homepage: Option<String>,
    auth_url: Option<String>,
) -> (r: Result<Config, ConfigError>)
    ensures
        password is None ==> r == Err::<Config, ConfigError>(ConfigError::MissingSecret),
        password matches Some(p) ==> {
            &&& r matches Ok(c)
            &&& c.password@ == p@
            &&& (homepage is None ==> c.show_github_page)
            &&& (homepage matches Some(h) ==> c.show_github_page == (h@ == "true"@ || h@ == "t"@
                || h@ == "1"@))
            &&& (auth_url is None ==> c.auth_url is None)
            &&& (auth_url matches Some(u) ==> c.auth_url matches Some(w) && w@ == u@)
        },
{
    match password {
        None => Err(ConfigError::MissingSecret),
        Some(p) => {
            let show = match &homepage {
                None => true,
                Some(h) => homepage_flag(Some(h.as_str())),
            };
            Ok(Config { password: p, show_github_page: show, auth_url })
        },
    }
}

/// A decimal digit.
pub open spec fn is_digit(c: char) -> bool {
    48 <= (c as u32) <= 57
}

/// A non-empty run of decimal digits.
pub open spec fn all_digits(s: Seq<char>) -> bool {
    s.len() > 0 && (forall|k: int| 0 <= k < s.len() ==> is_digit(s[k]))
}

/// The number a run of decimal digits denotes.
pub open spec fn digits_val(s: Seq<char>) -> int
    decreases s.len(),
{
    if s.len() == 0 {
        0
    } else {
        digits_val(s.drop_last()) * 10 + ((s.last() as u32) - 48)
    }
}

proof fn lemma_digits_val_nonneg(s: Seq<char>)
    requires
        forall|k: int| 0 <= k < s.len() ==> is_digit(s[k]),
    ensures
        digits_val(s) >= 0,
    decreases s.len(),
{
    if s.len() > 0 {
        lemma_digits_val_nonneg(s.drop_last());
    }
}

proof fn lemma_digits_val_prefix_le(s: Seq<char>, i: int)
    requires
        0 <= i <= s.len(),
        forall|k: int| 0 <= k < s.len() ==> is_digit(s[k]),
    ensures
        digits_val(s.subrange(0, i)) <= digits_val(s),
    decreases s.len() - i,
{
    if i < s.len() {
        assert(s.subrange(0, i + 1).drop_last() =~= s.subrange(0, i));
        assert(s.subrange(0, i + 1).last() == s[i]);
        assert(forall|k: int| 0 <= k < i ==> s.subrange(0, i)[k] == s[k]);
        lemma_digits_val_nonneg(s.subrange(0, i));
        lemma_digits_val_prefix_le(s, i + 1);
    } else {
        assert(s.subrange(0, i) =~= s);
    }
}

/// Parse a listen port: a non-empty run of decimal digits denoting a number
/// no greater than the largest port. Anything else is refused, and with it
/// the whole startup.
pub fn parse_port(s: &str) -> (r: Option<u16>)
    ensures
        r matches Some(p) ==> all_digits(s@) && p as int == digits_val(s@),
        r is None ==> !all_digits(s@) || digits_val(s@) > u16::MAX,
{
    let n = s.unicode_len();
    if n == 0 {
        return None;
    }
    let mut acc: u32 = 0;
    let mut i: usize = 0;
    while i < n
        invariant
            n == s@.len(),
            0 < n,
            0 <= i <= n,
            forall|k: int| 0 <= k < i ==> is_digit(s@[k]),
            acc as int == digits_val(s@.subrange(0, i as int)),
            acc <= 65535,
        decreases n - i,
    {
        let c = s.get_char(i);
        let cv = c as u32;
        if cv < 48 || cv > 57 {
            return None;
        }
        let grown = acc * 10 + (cv - 48);
        proof {
            assert(s@.subrange(0, i + 1).drop_last() =~= s@.subrange(0, i as int));
            assert(s@.subrange(0, i + 1).last() == s@[i as int]);
        }
        if grown > 65535 {
            proof {
                if all_digits(s@) {
                    lemma_digits_val_prefix_le(s@, i + 1);
                }
            }
            return None;
        }
        acc = grown;
        i = i + 1;
    }
    proof {
        assert(s@.subrange(0, n as int) =~= s@);
    }
    Some(acc as u16)
}

/// The listen port once the environment has spoken: an absent setting means
/// the default port 3000; a present one must parse as [`parse_port`] parses
/// it, or startup fails.
pub fn effective_port(v: Option<&str>) -> (r: Option<u16>)
    ensures
        v is None ==> r == Some(3000u16),
        v matches Some(s) ==> {
            &&& (r matches Some(p) ==> all_digits(s@) && p as int == digits_val(s@))
            &&& (r is None ==> !all_digits(s@) || digits_val(s@) > u16::MAX)
        },
{
    match v {
        None => Some(3000),
        Some(s) => parse_port(s),
    }
}

/// What the informational root route serves: a redirect to the project page
/// when it is exposed, otherwise not-found.
#[derive(Clone, Copy, PartialEq, Eq, Structural, Debug)]
pub enum HomeResponse {
    RedirectToProject,
    NotFound,
}

/// Decide the root route from the configuration flag.
pub fn home_response(show_github_page: bool) -> (r: HomeResponse)
    ensures
        (r == HomeResponse::RedirectToProject) == show_github_page,
        (r == HomeResponse::NotFound) == !show_github_page,
{
    if show_github_page {
        HomeResponse::RedirectToProject
    } else {
        HomeResponse::NotFound
    }
}

} // verus!
