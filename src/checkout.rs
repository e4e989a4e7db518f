//! Pull-request URLs of GitHub.

use crate::text::{
    before_first, cut_at_first, cut_prefix, parse_number, parse_u64, segments, split_segments,
    strip_prefix, trim, trimmed, views,
};
use vstd::prelude::*;

verus! {

/// A pull request: the repository that holds it and its number.
#[derive(Debug, Clone, PartialEq, Eq)]
pub struct GitHubPrRef {
    pub owner: String,
    pub repo: String,
    pub number: u64,
}

/// Why a text is not a pull-request URL.
#[derive(Debug, Clone, PartialEq, Eq)]
pub enum PrUrlError {
    /// The address is not on github.com.
    NotGitHub,
    /// Fewer than four path segments: owner, repository, `pull`, number.
    MissingSegments,
    /// The third path segment is not `pull`.
    MissingPull,
    /// The fourth path segment is not a number.
    InvalidNumber { text: String },
}

/// The address without surrounding whitespace, fragment, query and scheme.
pub open spec fn url_address(input: Seq<char>) -> Seq<char> {
    let s = before_first(before_first(trimmed(input), '#'), '?');
    match strip_prefix(s, "https://"@) {
        Some(rest) => rest,
        None => match strip_prefix(s, "http://"@) {
            Some(rest) => rest,
            None => s,
        },
    }
}

/// The path of the address, when it is on github.com.
pub open spec fn github_path(input: Seq<char>) -> Option<Seq<char>> {
    let s = url_address(input);
    match strip_prefix(s, "github.com/"@) {
        Some(rest) => Some(rest),
        None => strip_prefix(s, "www.github.com/"@),
    }
}

/// Reads `https://github.com/OWNER/REPO/pull/NUMBER`, with or without the
/// scheme or `www.`, ignoring empty path segments, whatever follows the
/// number, a query and a fragment.
pub fn parse_github_pr_url(input: &str) -> (r: Result<GitHubPrRef, PrUrlError>)
    ensures
        match github_path(input@) {
            None => r == Err::<GitHubPrRef, PrUrlError>(PrUrlError::NotGitHub),
            Some(path) => {
                let parts = segments(path, '/');
                if parts.len() < 4 {
                    r == Err::<GitHubPrRef, PrUrlError>(PrUrlError::MissingSegments)
                } else if parts[2] != "pull"@ {
                    r == Err::<GitHubPrRef, PrUrlError>(PrUrlError::MissingPull)
                } else {
                    match parse_u64(parts[3]) {
                        None => match r {
                            Err(PrUrlError::InvalidNumber { text }) => text@ == parts[3],
                            _ => false,
                        },
                        Some(n) => match r {
                            Ok(pr) => pr.owner@ == parts[0] && pr.repo@ == parts[1] && pr.number
                                == n,
                            _ => false,
                        },
                    }
                }
            },
        },
{
    let s = trim(input);
    let s = cut_at_first(s, '#');
    let s = cut_at_first(s, '?');
    let s = match cut_prefix(s, "https://") {
        Some(rest) => rest,
        None => match cut_prefix(s, "http://") {
            Some(rest) => rest,
            None => s,
        },
    };
    let path = match cut_prefix(s, "github.com/") {
        Some(rest) => rest,
        None => match cut_prefix(s, "www.github.com/") {
            Some(rest) => rest,
            None => {
                return Err(PrUrlError::NotGitHub);
            },
        },
    };
    let parts = split_segments(path, '/');
    proof {
        assert(views(parts@).len() == parts@.len());
    }
    if parts.len() < 4 {
        return Err(PrUrlError::MissingSegments);
    }
    assert(views(parts@)[2] == parts@[2]@);
    if parts[2] != String::from_str("pull") {
        return Err(PrUrlError::MissingPull);
    }
    assert(views(parts@)[3] == parts@[3]@);
    match parse_number(parts[3].as_str()) {
        None => Err(PrUrlError::InvalidNumber { text: parts[3].clone() }),
        Some(number) => Ok(
            GitHubPrRef { owner: parts[0].clone(), repo: parts[1].clone(), number },
        ),
    }
}

} // verus!
