//! The version-control provider a repository slug refers to.

use vstd::prelude::*;

verus! {

/// Which provider hosts the repository; it selects the provider segment of
/// every API path.
#[derive(Clone, Copy, Debug, PartialEq, Eq, Structural)]
pub enum Vcs {
    GitHub,
    BitBucket,
}

impl Vcs {
    /// The short provider code that appears in API paths.
    pub open spec fn spec_code(self) -> Seq<char> {
        match self {
            Vcs::GitHub => "gh"@,
            Vcs::BitBucket => "bb"@,
        }
    }

    pub fn code(&self) -> (r: &'static str)
        ensures
            r@ == self.spec_code(),
    {
        match self {
            Vcs::GitHub => "gh",
            Vcs::BitBucket => "bb",
        }
    }

    /// Every string maps to a provider; anything that is not a BitBucket
    /// spelling falls back to GitHub.
    pub open spec fn spec_parse(s: Seq<char>) -> Vcs {
        if s == "bb"@ || s == "BitBucket"@ {
            Vcs::BitBucket
        } else {
            Vcs::GitHub
        }
    }

    pub fn parse(s: &str) -> (r: Vcs)
        ensures
            r == Vcs::spec_parse(s@),
    {
        let owned: String = s.to_owned();
        let bb: String = "bb".to_owned();
        let bitbucket: String = "BitBucket".to_owned();
        if owned == bb || owned == bitbucket {
            Vcs::BitBucket
        } else {
            Vcs::GitHub
        }
    }
}

} // verus!
