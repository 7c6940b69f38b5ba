//! From a workspace URL, as an operator types it, to the token issuance endpoint.

use vstd::prelude::*;
use vstd::string::*;
use crate::text::{ends_with_char, starts_with};

verus! {

/// The only scheme the platform is reached over.
pub open spec fn scheme() -> Seq<char> {
    "https://"@
}

/// The path of the token issuance API below every workspace.
pub open spec fn token_path() -> Seq<char> {
    "/api/2.0/token/create"@
}

/// `url` without its last character if that is a slash. One slash goes, never two.
pub open spec fn without_trailing_slash(url: Seq<char>) -> Seq<char> {
    if url.len() > 0 && url.last() == '/' {
        url.drop_last()
    } else {
        url
    }
}

/// `url` itself if it already begins with the scheme, else the scheme followed by `url`.
pub open spec fn with_scheme(url: Seq<char>) -> Seq<char> {
    if scheme().is_prefix_of(url) {
        url
    } else {
        scheme() + url
    }
}

/// The workspace's base URL: no trailing slash, and the scheme in front.
pub open spec fn base_url(url: Seq<char>) -> Seq<char> {
    with_scheme(without_trailing_slash(url))
}

/// The issuance endpoint of the workspace that `url` names.
pub open spec fn token_url(url: Seq<char>) -> Seq<char> {
    base_url(url) + token_path()
}

/// Builds the issuance endpoint for a workspace URL.
///
/// Nothing is rejected here: a host that makes no sense gives a URL that makes
/// no sense, and the network layer is the one to say so.
pub fn get_dbx_token_url(url: &str) -> (endpoint: String)
    ensures
        endpoint@ == token_url(url@),
{
    let trimmed: &str = if ends_with_char(url, '/') {
        let n = url.unicode_len();
        let cut = url.substring_char(0, n - 1);
        assert(cut@ =~= url@.drop_last());
        cut
    } else {
        url
    };
    let mut new_url = if starts_with(trimmed, "https://") {
        String::from_str(trimmed)
    } else {
        String::from_str("https://").concat(trimmed)
    };
    new_url.append("/api/2.0/token/create");
    new_url
}

/// Every endpoint begins with the scheme and ends with the issuance path.
pub proof fn lemma_token_url_shape(url: Seq<char>)
    ensures
        scheme().is_prefix_of(token_url(url)),
        token_path().is_suffix_of(token_url(url)),
        token_url(url).len() >= scheme().len() + token_path().len(),
{
    let base = base_url(url);
    let stripped = without_trailing_slash(url);
    assert(scheme().is_prefix_of(base)) by {
        if !scheme().is_prefix_of(stripped) {
            assert((scheme() + stripped).subrange(0, scheme().len() as int) =~= scheme());
        }
    }
    assert(token_url(url).subrange(0, scheme().len() as int) =~= base.subrange(
        0,
        scheme().len() as int,
    ));
    assert(token_url(url).subrange(
        token_url(url).len() - token_path().len(),
        token_url(url).len() as int,
    ) =~= token_path());
}

/// A host that is not empty, has no trailing slash and carries no scheme gets
/// the scheme in front and the issuance path behind, each exactly once: what
/// follows the scheme does not begin with the scheme again.
pub proof fn lemma_bare_host(host: Seq<char>)
    requires
        host.len() > 0,
        host.last() != '/',
        !scheme().is_prefix_of(host),
    ensures
        token_url(host) == scheme() + host + token_path(),
        token_url(host).len() == scheme().len() + host.len() + token_path().len(),
        !scheme().is_prefix_of(host + token_path()),
{
    reveal_strlit("https://");
    reveal_strlit("/api/2.0/token/create");
    let rest = host + token_path();
    if scheme().is_prefix_of(rest) {
        let n = scheme().len() as int;
        assert forall|i: int| 0 <= i < n implies rest[i] == scheme()[i] by {
            assert(rest.subrange(0, n)[i] == rest[i]);
        }
        if host.len() >= n {
            assert(host.subrange(0, n) =~= scheme());
        } else {
            // The host would have to be the scheme cut short, and the path
            // would have to supply the missing characters.
            assert(rest[host.len() as int] == token_path()[0]);
            assert(rest[host.len() as int - 1] == host.last());
            assert(rest[7] == '/');
            assert(rest[6] == '/');
            assert(rest[5] == ':');
            if host.len() < 7 {
                assert(rest[host.len() as int + 1] == token_path()[1]);
            }
        }
    }
}

/// Normalizing the base URL of a workspace again leads to the same endpoint,
/// as long as that base does not itself end with a slash (a URL typed with
/// two trailing slashes keeps one, and an empty one is all scheme).
pub proof fn lemma_renormalize_base(url: Seq<char>)
    requires
        base_url(url).last() != '/',
    ensures
        base_url(base_url(url)) == base_url(url),
        token_url(base_url(url)) == token_url(url),
{
    reveal_strlit("https://");
    let stripped = without_trailing_slash(url);
    let base = base_url(url);
    assert(base.len() > 0);
    assert(scheme().is_prefix_of(base)) by {
        if !scheme().is_prefix_of(stripped) {
            assert((scheme() + stripped).subrange(0, scheme().len() as int) =~= scheme());
        }
    }
}

} // verus!
