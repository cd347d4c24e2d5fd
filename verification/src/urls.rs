use vstd::prelude::*;
use vstd::string::*;

verus! {

/// The fixed service root that every assembled request URL starts with.
pub open spec fn service_root() -> Seq<char> {
    "https://intra.epitech.eu/"@
}

/// The full request URL for a session token and an endpoint fragment:
/// the service root, the token, a slash, the fragment, and a final
/// `format=json` query parameter, introduced by `&` when the fragment
/// already carries a query string of its own and by `?` otherwise.
pub open spec fn url_of(token: Seq<char>, endpoint: Seq<char>) -> Seq<char> {
    service_root() + token + "/"@ + endpoint + (if endpoint.contains('?') {
        "&"@
    } else {
        "?"@
    }) + "format=json"@
}

/// Law: a fragment with no query string of its own is followed by exactly
/// `?format=json` in the assembled URL.
pub proof fn lemma_url_plain_fragment(token: Seq<char>, endpoint: Seq<char>)
    requires
        !endpoint.contains('?'),
    ensures
        url_of(token, endpoint) == service_root() + token + "/"@ + endpoint + "?format=json"@,
{
    reveal_strlit("?");
    reveal_strlit("format=json");
    reveal_strlit("?format=json");
    assert("?"@ + "format=json"@ =~= "?format=json"@);
    assert(url_of(token, endpoint) =~= service_root() + token + "/"@ + endpoint
        + "?format=json"@);
}

/// Law: a fragment that already carries a query string is followed by
/// exactly `&format=json` in the assembled URL.
pub proof fn lemma_url_query_fragment(token: Seq<char>, endpoint: Seq<char>)
    requires
        endpoint.contains('?'),
    ensures
        url_of(token, endpoint) == service_root() + token + "/"@ + endpoint + "&format=json"@,
{
    reveal_strlit("&");
    reveal_strlit("format=json");
    reveal_strlit("&format=json");
    assert("&"@ + "format=json"@ =~= "&format=json"@);
    assert(url_of(token, endpoint) =~= service_root() + token + "/"@ + endpoint
        + "&format=json"@);
}

/// Law: whatever the fragment, the assembled URL begins with the service
/// root, then the token, then a slash.
pub proof fn lemma_url_prefix(token: Seq<char>, endpoint: Seq<char>)
    ensures
        url_of(token, endpoint).take((service_root().len() + token.len() + 1) as int)
            == service_root() + token + "/"@,
{
    reveal_strlit("/");
    assert(url_of(token, endpoint).take((service_root().len() + token.len() + 1) as int)
        =~= service_root() + token + "/"@);
}

/// Whether the character `c` occurs in `s`.
fn str_contains_char(s: &str, c: char) -> (r: bool)
    ensures
        r == s@.contains(c),
{
    let n: usize = s.unicode_len();
    let mut i: usize = 0;
    while i < n
        invariant
            i <= n,
            n == s@.len(),
            forall|j: int| 0 <= j < i ==> s@[j] != c,
        decreases n - i,
    {
        if s.get_char(i) == c {
            assert(s@.contains(c));
            return true;
        }
        i = i + 1;
    }
    assert(!s@.contains(c));
    false
}

/// Assembles the full request URL for a token and an endpoint fragment.
pub fn assemble_url(token: &str, endpoint: &str) -> (r: String)
    ensures
        r@ == url_of(token@, endpoint@),
{
    let mut r: String = "https://intra.epitech.eu/".to_owned();
    r.append(token);
    r.append("/");
    r.append(endpoint);
    if str_contains_char(endpoint, '?') {
        r.append("&");
    } else {
        r.append("?");
    }
    r.append("format=json");
    proof {
        assert(r@ =~= url_of(token@, endpoint@));
    }
    r
}

} // verus!
