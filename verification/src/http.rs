//! Small helpers around the HTTP boundary: the user-agent string sent with
//! every request, URL validation, and the liveness rule for probe responses.

use vstd::prelude::*;

verus! {

/// Whether `url` parses as an absolute URL.
pub uninterp spec fn url_well_formed(s: Seq<char>) -> bool;

/// Relies on `url::Url::parse`: whether a string parses as an absolute URL
/// is a function of its characters alone.
#[verifier::external_body]
pub fn is_valid_url(url: &str) -> (r: bool)
    ensures
        r == url_well_formed(url@),
{
    url::Url::parse(url).is_ok()
}

/// The user-agent string sent with every request to a runner, built from the
/// console's own version string.
pub fn user_agent(version: &str) -> (r: String)
    ensures
        r@ == "volkanic-console/"@ + version@,
{
    String::from_str("volkanic-console/").concat(version)
}

/// The liveness rule for `/check` probes: a runner is alive exactly when it
/// answers with HTTP status 200; any other status counts as down.
pub fn probe_alive(status_code: u16) -> (r: bool)
    ensures
        r == (status_code == 200),
{
    status_code == 200
}

/// A base URL with its trailing slashes removed.
pub open spec fn spec_trim_trailing_slashes(s: Seq<char>) -> Seq<char>
    decreases s.len(),
{
    if s.len() > 0 && s.last() == '/' {
        spec_trim_trailing_slashes(s.drop_last())
    } else {
        s
    }
}

/// Strip trailing slashes from a base URL, as runner URLs are stored without
/// one.
pub fn normalize_base_url(url: &str) -> (r: String)
    ensures
        r@ == spec_trim_trailing_slashes(url@),
{
    let n = url.unicode_len();
    let mut end = n;
    proof {
        assert(url@.subrange(0, n as int) =~= url@);
    }
    while end > 0 && url.get_char(end - 1) == '/'
        invariant
            n == url@.len(),
            end <= n,
            spec_trim_trailing_slashes(url@) == spec_trim_trailing_slashes(
                url@.subrange(0, end as int),
            ),
        decreases end,
    {
        proof {
            assert(url@.subrange(0, end as int).last() == url@[end - 1]);
            assert(url@.subrange(0, end as int).drop_last() =~= url@.subrange(0, end - 1));
        }
        end = end - 1;
    }
    String::from_str(url.substring_char(0, end))
}

} // verus!
