//! Building the hosting-API endpoint that lists a repository path.

use vstd::prelude::*;

verus! {

/// The listing endpoint for one path of a repository: `/contents` under the
/// repository for the root (an empty path), `/contents/<path>` otherwise.
pub open spec fn spec_contents_url(
    base: Seq<char>,
    username: Seq<char>,
    repo: Seq<char>,
    path: Seq<char>,
) -> Seq<char> {
    let root = base + "/"@ + username + "/"@ + repo + "/contents"@;
    if path.len() == 0 {
        root
    } else {
        root + "/"@ + path
    }
}

/// Builds the listing endpoint for one path of a repository.
pub fn contents_url(base: &str, username: &str, repo: &str, path: &str) -> (r: String)
    ensures
        r@ == spec_contents_url(base@, username@, repo@, path@),
{
    let mut url = String::new();
    url.append(base);
    url.append("/");
    url.append(username);
    url.append("/");
    url.append(repo);
    url.append("/contents");
    if path.unicode_len() > 0 {
        url.append("/");
        url.append(path);
    }
    proof {
        assert(url@ =~= spec_contents_url(base@, username@, repo@, path@));
    }
    url
}

} // verus!
