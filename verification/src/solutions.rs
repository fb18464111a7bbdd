//! Solution types shared by the providers.

use vstd::prelude::*;
use crate::proxy::opt_view;
use crate::text::str_eq;

verus! {

/// Marker for the solution types of a provider.
pub trait ProviderSolution: Send + Sync {}

/// reCAPTCHA solution (V2 and V3).
#[derive(Debug, Clone)]
pub struct ReCaptchaSolution {
    /// The token to submit as `g-recaptcha-response`.
    pub g_recaptcha_response: String,
    /// Alias of the token that some providers return.
    pub token: Option<String>,
    /// User agent used during solving.
    pub user_agent: Option<String>,
    /// `Sec-Ch-Ua` header value.
    pub sec_ch_ua: Option<String>,
    /// Token creation timestamp.
    pub create_time: Option<u64>,
    /// Session cookie for V3 when sessions are enabled.
    pub recaptcha_ca_t: Option<String>,
    /// Cookie some V2 sites need.
    pub recaptcha_ca_e: Option<String>,
}

impl ReCaptchaSolution {
    /// The reCAPTCHA token.
    pub fn token(&self) -> (s: &str)
        ensures
            s@ == self.g_recaptcha_response@,
    {
        self.g_recaptcha_response.as_str()
    }

    /// The V3 session cookie, if any.
    pub fn session_cookie(&self) -> (c: Option<&str>)
        ensures
            match c {
                Some(s) => opt_view(self.recaptcha_ca_t) == Some(s@),
                None => self.recaptcha_ca_t is None,
            },
    {
        match &self.recaptcha_ca_t {
            Some(s) => Some(s.as_str()),
            None => None,
        }
    }
}

/// The value of the first cookie named `name` in `cookies`.
pub open spec fn cookie_value(cookies: Seq<(String, String)>, name: Seq<char>) -> Option<Seq<char>>
    decreases cookies.len(),
{
    if cookies.len() == 0 {
        None
    } else if cookies[0].0@ == name {
        Some(cookies[0].1@)
    } else {
        cookie_value(cookies.drop_first(), name)
    }
}

/// Whether no two cookies in `cookies` have the same name.
pub open spec fn distinct_names(cookies: Seq<(String, String)>) -> bool {
    forall|i: int, j: int|
        0 <= i < j < cookies.len() ==> #[trigger] cookies[i].0@ != #[trigger] cookies[j].0@
}

/// The cookies of an optional list (none when absent).
pub open spec fn cookie_seq(cookies: Option<Vec<(String, String)>>) -> Seq<(String, String)> {
    match cookies {
        Some(v) => v@,
        None => Seq::empty(),
    }
}

/// Among cookies with distinct names, looking a name up gives the value of
/// the cookie with that name, and nothing when no cookie has it.
pub proof fn law_cookie_lookup(cookies: Seq<(String, String)>, name: Seq<char>)
    requires
        distinct_names(cookies),
    ensures
        forall|i: int|
            0 <= i < cookies.len() && #[trigger] cookies[i].0@ == name ==> cookie_value(cookies, name)
                == Some(cookies[i].1@),
        (forall|i: int| 0 <= i < cookies.len() ==> #[trigger] cookies[i].0@ != name) ==> cookie_value(
            cookies,
            name,
        ) is None,
    decreases cookies.len(),
{
    if cookies.len() > 0 {
        let rest = cookies.drop_first();
        assert(distinct_names(rest)) by {
            assert forall|i: int, j: int| 0 <= i < j < rest.len() implies #[trigger] rest[i].0@
                != #[trigger] rest[j].0@ by {
                assert(rest[i] == cookies[i + 1]);
                assert(rest[j] == cookies[j + 1]);
            }
        }
        law_cookie_lookup(rest, name);
        assert forall|i: int|
            0 <= i < cookies.len() && #[trigger] cookies[i].0@ == name implies cookie_value(
                cookies,
                name,
            ) == Some(cookies[i].1@) by {
            if i > 0 {
                assert(rest[i - 1] == cookies[i]);
                assert(cookies[0].0@ != cookies[i].0@);
            }
        }
        if forall|i: int| 0 <= i < cookies.len() ==> #[trigger] cookies[i].0@ != name {
            assert forall|i: int| 0 <= i < rest.len() implies #[trigger] rest[i].0@ != name by {
                assert(rest[i] == cookies[i + 1]);
            }
        }
    }
}

/// Turnstile and Cloudflare challenge solution.
#[derive(Debug, Clone)]
pub struct TurnstileSolution {
    /// The solved token (Turnstile token or `cf_clearance` value).
    pub token: String,
    /// Cookies as (name, value) pairs, each name at most once
    /// (Cloudflare challenge only).
    pub cookies: Option<Vec<(String, String)>>,
    /// User agent used (later requests must use the same one).
    pub user_agent: Option<String>,
}

/// Cloudflare challenge solutions have the Turnstile shape.
pub type CloudflareChallengeSolution = TurnstileSolution;

impl TurnstileSolution {
    /// The invariant the solution keeps: no two cookies share a name (a
    /// cookie map has one value per name).
    pub open spec fn well_formed(&self) -> bool {
        distinct_names(cookie_seq(self.cookies))
    }

    /// A solution with the given token and user agent, and no cookies.
    pub fn new(token: String, user_agent: Option<String>) -> (s: Self)
        ensures
            s.token == token,
            s.user_agent == user_agent,
            s.cookies is None,
            s.well_formed(),
    {
        TurnstileSolution { token, cookies: None, user_agent }
    }

    /// Sets the cookie `name` to `value`: the cookie of that name gets the
    /// new value where there is one, otherwise the cookie is added at the
    /// end. No two cookies ever share a name.
    pub fn set_cookie(&mut self, name: String, value: String)
        requires
            old(self).well_formed(),
        ensures
            final(self).well_formed(),
            final(self).token == old(self).token,
            final(self).user_agent == old(self).user_agent,
            final(self).cookies is Some,
            (exists|i: int|
                0 <= i < cookie_seq(old(self).cookies).len() && #[trigger] cookie_seq(
                    old(self).cookies,
                )[i].0@ == name@ && cookie_seq(final(self).cookies) == cookie_seq(
                    old(self).cookies,
                ).update(i, (name, value))) || ((forall|i: int|
                0 <= i < cookie_seq(old(self).cookies).len() ==> #[trigger] cookie_seq(
                    old(self).cookies,
                )[i].0@ != name@) && cookie_seq(final(self).cookies) == cookie_seq(
                old(self).cookies,
            ).push((name, value))),
    {
        let mut v = match self.cookies.take() {
            Some(v) => v,
            None => Vec::new(),
        };
        let ghost before = v@;
        assert(before == cookie_seq(old(self).cookies));
        let mut i: usize = 0;
        while i < v.len()
            invariant
                v@ == before,
                before == cookie_seq(old(self).cookies),
                distinct_names(before),
                self.token == old(self).token,
                self.user_agent == old(self).user_agent,
                0 <= i <= v@.len(),
                forall|k: int| 0 <= k < i ==> #[trigger] v@[k].0@ != name@,
            decreases v@.len() - i,
        {
            if str_eq(v[i].0.as_str(), name.as_str()) {
                v.set(i, (name, value));
                proof {
                    assert forall|a: int, b: int| 0 <= a < b < v@.len() implies #[trigger] v@[a].0@
                        != #[trigger] v@[b].0@ by {
                        assert(before[a].0@ != before[b].0@);
                    }
                }
                self.cookies = Some(v);
                return;
            }
            i = i + 1;
        }
        v.push((name, value));
        proof {
            assert forall|a: int, b: int| 0 <= a < b < v@.len() implies #[trigger] v@[a].0@
                != #[trigger] v@[b].0@ by {
                if b < before.len() {
                    assert(before[a].0@ != before[b].0@);
                }
            }
        }
        self.cookies = Some(v);
    }

    /// The token.
    pub fn token(&self) -> (s: &str)
        ensures
            s@ == self.token@,
    {
        self.token.as_str()
    }

    /// The `cf_clearance` cookie, if the solution carries cookies and one of
    /// them has that name.
    pub fn cf_clearance(&self) -> (c: Option<&str>)
        ensures
            match self.cookies {
                Some(v) => match c {
                    Some(s) => cookie_value(v@, "cf_clearance"@) == Some(s@),
                    None => cookie_value(v@, "cf_clearance"@) is None,
                },
                None => c is None,
            },
    {
        match &self.cookies {
            None => None,
            Some(v) => {
                let mut i: usize = 0;
                proof {
                    assert(v@.subrange(0, v@.len() as int) =~= v@);
                }
                while i < v.len()
                    invariant
                        self.cookies == Some(*v),
                        0 <= i <= v@.len(),
                        cookie_value(v@, "cf_clearance"@)
                            == cookie_value(v@.subrange(i as int, v@.len() as int), "cf_clearance"@),
                    decreases v@.len() - i,
                {
                    let ghost rest = v@.subrange(i as int, v@.len() as int);
                    proof {
                        assert(rest.drop_first() =~= v@.subrange(i + 1, v@.len() as int));
                        assert(rest[0] == v@[i as int]);
                    }
                    if str_eq(v[i].0.as_str(), "cf_clearance") {
                        let value = v[i].1.as_str();
                        proof {
                            assert(cookie_value(rest, "cf_clearance"@) == Some(rest[0].1@));
                        }
                        return Some(value);
                    }
                    i = i + 1;
                }
                None
            },
        }
    }

    /// All cookies (Cloudflare challenge only).
    pub fn cookies(&self) -> (c: Option<&Vec<(String, String)>>)
        ensures
            match c {
                Some(v) => self.cookies == Some(*v),
                None => self.cookies is None,
            },
    {
        self.cookies.as_ref()
    }
}

/// Image-to-text solution: the recognized text.
#[derive(Debug, Clone)]
pub struct ImageToTextSolution {
    /// The recognized text.
    pub text: String,
}

impl ImageToTextSolution {
    /// The recognized text.
    pub fn text(&self) -> (s: &str)
        ensures
            s@ == self.text@,
    {
        self.text.as_str()
    }
}

} // verus!
